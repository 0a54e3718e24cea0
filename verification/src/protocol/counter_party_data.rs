//! Which data one side asks of the other.
use vstd::prelude::*;

verus! {

/// One piece of data that is asked for.
#[derive(Debug)]
pub struct CounterPartyDataOption {
    /// The name of the data, such as `email`.
    pub name: String,
    /// Whether it must be given.
    pub mandatory: bool,
}

/// The data that one side asks of the other.
#[derive(Debug)]
pub struct CounterPartyDataOptions {
    pub options: Vec<CounterPartyDataOption>,
}

impl View for CounterPartyDataOption {
    type V = (Seq<char>, bool);

    open spec fn view(&self) -> (Seq<char>, bool) {
        (self.name@, self.mandatory)
    }
}

impl View for CounterPartyDataOptions {
    type V = Seq<(Seq<char>, bool)>;

    open spec fn view(&self) -> Seq<(Seq<char>, bool)> {
        Seq::new(self.options@.len(), |i: int| self.options@[i]@)
    }
}

impl Clone for CounterPartyDataOption {
    fn clone(&self) -> (res: Self)
        ensures
            res@ == self@,
    {
        CounterPartyDataOption { name: self.name.clone(), mandatory: self.mandatory }
    }
}

impl Clone for CounterPartyDataOptions {
    fn clone(&self) -> (res: Self)
        ensures
            res@ == self@,
    {
        let mut options: Vec<CounterPartyDataOption> = Vec::new();
        let mut i: usize = 0;
        while i < self.options.len()
            invariant
                i <= self.options.len(),
                options.len() == i,
                forall|j: int| 0 <= j < i ==> (#[trigger] options@[j])@ == self.options@[j]@,
            decreases self.options.len() - i,
        {
            options.push(self.options[i].clone());
            i += 1;
        }
        let res = CounterPartyDataOptions { options };
        assert(res@ =~= self@);
        res
    }
}

/// The view of options that may be missing.
pub open spec fn opt_options(o: Option<CounterPartyDataOptions>) -> Option<
    Seq<(Seq<char>, bool)>,
> {
    match o {
        Some(options) => Some(options@),
        None => None,
    }
}

} // verus!
