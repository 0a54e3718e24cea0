//! Currencies that a receiver accepts.
use vstd::prelude::*;

verus! {

/// A currency that a receiver accepts.
#[derive(Debug)]
pub struct Currency {
    /// The code of the currency, such as `USD`.
    pub code: String,
    /// The name of the currency.
    pub name: String,
    /// The symbol of the currency.
    pub symbol: String,
    /// The estimated number of millisatoshis in the smallest unit of the currency, as the
    /// bits of a double-precision number.
    pub millisatoshi_per_unit_bits: u64,
    /// The least amount that can be sent, in the smallest unit of the currency.
    pub min_sendable: i64,
    /// The greatest amount that can be sent, in the smallest unit of the currency.
    pub max_sendable: i64,
    /// The number of digits after the decimal point.
    pub decimals: i32,
}

/// A [`Currency`] with its strings as sequences of characters.
pub struct CurrencyView {
    pub code: Seq<char>,
    pub name: Seq<char>,
    pub symbol: Seq<char>,
    pub millisatoshi_per_unit_bits: u64,
    pub min_sendable: i64,
    pub max_sendable: i64,
    pub decimals: i32,
}

impl View for Currency {
    type V = CurrencyView;

    open spec fn view(&self) -> CurrencyView {
        CurrencyView {
            code: self.code@,
            name: self.name@,
            symbol: self.symbol@,
            millisatoshi_per_unit_bits: self.millisatoshi_per_unit_bits,
            min_sendable: self.min_sendable,
            max_sendable: self.max_sendable,
            decimals: self.decimals,
        }
    }
}

impl Clone for Currency {
    fn clone(&self) -> (res: Self)
        ensures
            res@ == self@,
    {
        Currency {
            code: self.code.clone(),
            name: self.name.clone(),
            symbol: self.symbol.clone(),
            millisatoshi_per_unit_bits: self.millisatoshi_per_unit_bits,
            min_sendable: self.min_sendable,
            max_sendable: self.max_sendable,
            decimals: self.decimals,
        }
    }
}

/// The view of a list of currencies.
pub open spec fn currency_views(v: Seq<Currency>) -> Seq<CurrencyView> {
    Seq::new(v.len(), |i: int| v[i]@)
}

/// A copy of a list of currencies.
pub(crate) fn copy_currencies(v: &[Currency]) -> (res: Vec<Currency>)
    ensures
        currency_views(res@) == currency_views(v@),
{
    let mut res: Vec<Currency> = Vec::new();
    let mut i: usize = 0;
    while i < v.len()
        invariant
            i <= v.len(),
            res.len() == i,
            forall|j: int| 0 <= j < i ==> (#[trigger] res@[j])@ == v@[j]@,
        decreases v.len() - i,
    {
        res.push(v[i].clone());
        i += 1;
    }
    assert(currency_views(res@) =~= currency_views(v@));
    res
}

} // verus!
