//! What a sender tells about the payer.
use vstd::prelude::*;
use vstd::string::*;

use crate::json;
use crate::json::Json;
use crate::protocol::kyc_status::KycStatus;
use crate::protocol::Error;
use crate::text;

verus! {

/// The format of travel rule information, such as `ivms@101.2023`.
#[derive(Debug)]
pub struct TravelRuleFormat {
    /// The name of the standardized format.
    pub format: String,
    /// The version of the format.
    pub version: Option<String>,
}

/// A [`TravelRuleFormat`] with its strings as sequences of characters.
pub struct TravelRuleFormatView {
    pub format: Seq<char>,
    pub version: Option<Seq<char>>,
}

impl View for TravelRuleFormat {
    type V = TravelRuleFormatView;

    open spec fn view(&self) -> TravelRuleFormatView {
        TravelRuleFormatView { format: self.format@, version: text::opt_text(self.version) }
    }
}

/// The view of a format that may be missing.
pub open spec fn opt_format(o: Option<TravelRuleFormat>) -> Option<TravelRuleFormatView> {
    match o {
        Some(f) => Some(f@),
        None => None,
    }
}

impl TravelRuleFormatView {
    /// The text of a format: `format@version`, or `format` alone.
    pub open spec fn written(self) -> Seq<char> {
        match self.version {
            Some(version) => self.format + "@"@ + version,
            None => self.format,
        }
    }

    /// The format that a text is of.
    pub open spec fn read(s: Seq<char>) -> TravelRuleFormatView {
        match text::cut_at_first(s, '@') {
            Some((format, version)) => TravelRuleFormatView { format, version: Some(version) },
            None => TravelRuleFormatView { format: s, version: None },
        }
    }

    /// A format is read back from its text, if there is no `@` in its name.
    pub proof fn read_of_written(self)
        requires
            !self.format.contains('@'),
        ensures
            TravelRuleFormatView::read(self.written()) == self,
    {
        reveal_strlit("@");
        assert("@"@ =~= seq!['@']);
        match self.version {
            Some(version) => {
                text::cut_at_first_of_joined(self.format, '@', version);
            },
            None => {
                text::cut_at_first_restores(self.format, '@');
            },
        }
    }
}

impl TravelRuleFormat {
    /// The text of a format: `format@version`, or `format` alone.
    pub fn to_text(&self) -> (res: String)
        ensures
            res@ == self@.written(),
    {
        let mut res = self.format.clone();
        match &self.version {
            Some(version) => {
                res.append("@");
                res.append(version.as_str());
            },
            None => {},
        }
        res
    }

    /// The format that a text is of.
    pub fn from_text(s: &str) -> (res: TravelRuleFormat)
        ensures
            res@ == TravelRuleFormatView::read(s@),
    {
        match text::split_at_first(s, '@') {
            Some((format, version)) => TravelRuleFormat { format, version: Some(version) },
            None => TravelRuleFormat { format: s.to_owned(), version: None },
        }
    }
}

/// What a sender tells about the payer for the compliance checks of the receiver.
#[derive(Debug)]
pub struct CompliancePayerData {
    /// The UTXOs of the sender's channels that might fund the payment.
    pub utxos: Vec<String>,
    /// The public key of the sender's node.
    pub node_pubkey: Option<String>,
    pub kyc_status: KycStatus,
    /// The travel rule information, encrypted for the receiver, as hexadecimal text.
    pub encrypted_travel_rule_info: Option<String>,
    /// The format of the travel rule information.
    pub travel_rule_format: Option<TravelRuleFormat>,
    /// The signature on the payer's identifier, the nonce and the timestamp.
    pub signature: String,
    pub signature_nonce: String,
    pub signature_timestamp: i64,
    /// The URL under which the receiver reports the UTXOs that it used.
    pub utxo_callback: String,
}

/// A [`CompliancePayerData`] with its strings as sequences of characters.
#[verifier::ext_equal]
pub struct CompliancePayerDataView {
    pub utxos: Seq<Seq<char>>,
    pub node_pubkey: Option<Seq<char>>,
    pub kyc_status: KycStatus,
    pub encrypted_travel_rule_info: Option<Seq<char>>,
    pub travel_rule_format: Option<TravelRuleFormatView>,
    pub signature: Seq<char>,
    pub signature_nonce: Seq<char>,
    pub signature_timestamp: i64,
    pub utxo_callback: Seq<char>,
}

impl View for CompliancePayerData {
    type V = CompliancePayerDataView;

    open spec fn view(&self) -> CompliancePayerDataView {
        CompliancePayerDataView {
            utxos: text::texts(self.utxos@),
            node_pubkey: text::opt_text(self.node_pubkey),
            kyc_status: self.kyc_status,
            encrypted_travel_rule_info: text::opt_text(self.encrypted_travel_rule_info),
            travel_rule_format: opt_format(self.travel_rule_format),
            signature: self.signature@,
            signature_nonce: self.signature_nonce@,
            signature_timestamp: self.signature_timestamp,
            utxo_callback: self.utxo_callback@,
        }
    }
}

impl CompliancePayerDataView {
    /// The text of the travel rule format.
    pub open spec fn format_text(self) -> Option<Seq<char>> {
        match self.travel_rule_format {
            Some(f) => Some(f.written()),
            None => None,
        }
    }

    /// The members of the JSON object that compliance data is sent as.
    pub open spec fn members(self) -> Map<Seq<char>, Json> {
        Map::<Seq<char>, Json>::empty().insert("utxos"@, json::text_list(self.utxos)).insert(
            "nodePubKey"@,
            json::text_or_null(self.node_pubkey),
        ).insert("kycStatus"@, Json::Text(self.kyc_status.name())).insert(
            "encryptedTravelRuleInfo"@,
            json::text_or_null(self.encrypted_travel_rule_info),
        ).insert("travelRuleFormat"@, json::text_or_null(self.format_text())).insert(
            "signature"@,
            Json::Text(self.signature),
        ).insert("signatureNonce"@, Json::Text(self.signature_nonce)).insert(
            "signatureTimestamp"@,
            Json::Number(text::decimal_int(self.signature_timestamp as int)),
        ).insert("utxoCallback"@, Json::Text(self.utxo_callback))
    }

    /// The compliance data that a JSON value is: an object that holds each field in its form.
    /// The fields that compliance data may do without can be missing or null.
    pub open spec fn read(j: Json) -> Option<CompliancePayerDataView> {
        match (
            json::text_list_member(j, "utxos"@),
            json::opt_text_member(j, "nodePubKey"@),
            json::text_member(j, "kycStatus"@),
            json::opt_text_member(j, "encryptedTravelRuleInfo"@),
            json::opt_text_member(j, "travelRuleFormat"@),
            json::text_member(j, "signature"@),
            json::text_member(j, "signatureNonce"@),
            json::integer_member(j, "signatureTimestamp"@),
            json::text_member(j, "utxoCallback"@),
        ) {
            (
                Some(utxos),
                Some(node_pubkey),
                Some(kyc_name),
                Some(encrypted_travel_rule_info),
                Some(format_text),
                Some(signature),
                Some(signature_nonce),
                Some(signature_timestamp),
                Some(utxo_callback),
            ) => match KycStatus::named(kyc_name) {
                Some(kyc_status) => Some(
                    CompliancePayerDataView {
                        utxos,
                        node_pubkey,
                        kyc_status,
                        encrypted_travel_rule_info,
                        travel_rule_format: match format_text {
                            Some(s) => Some(TravelRuleFormatView::read(s)),
                            None => None,
                        },
                        signature,
                        signature_nonce,
                        signature_timestamp,
                        utxo_callback,
                    },
                ),
                None => None,
            },
            _ => None,
        }
    }

    /// Compliance data with its travel rule format as it is read from the format's text.
    pub open spec fn with_format_reread(self) -> CompliancePayerDataView {
        CompliancePayerDataView {
            travel_rule_format: match self.travel_rule_format {
                Some(f) => Some(TravelRuleFormatView::read(f.written())),
                None => None,
            },
            ..self
        }
    }

    /// The names of the members of compliance data differ from each other.
    pub proof fn member_names_differ()
        ensures
            "utxos"@.len() == 5,
            "nodePubKey"@.len() == 10,
            "kycStatus"@.len() == 9 && "kycStatus"@[0] == 'k',
            "encryptedTravelRuleInfo"@.len() == 23,
            "travelRuleFormat"@.len() == 16,
            "signature"@.len() == 9 && "signature"@[0] == 's',
            "signatureNonce"@.len() == 14,
            "signatureTimestamp"@.len() == 18,
            "utxoCallback"@.len() == 12,
    {
        reveal_strlit("utxos");
        reveal_strlit("nodePubKey");
        reveal_strlit("kycStatus");
        reveal_strlit("encryptedTravelRuleInfo");
        reveal_strlit("travelRuleFormat");
        reveal_strlit("signature");
        reveal_strlit("signatureNonce");
        reveal_strlit("signatureTimestamp");
        reveal_strlit("utxoCallback");
        // the names differ in length, but for two that differ in their first letter
        assert("utxos"@.len() == 5);
        assert("nodePubKey"@.len() == 10);
        assert("kycStatus"@.len() == 9 && "kycStatus"@[0] == 'k');
        assert("encryptedTravelRuleInfo"@.len() == 23);
        assert("travelRuleFormat"@.len() == 16);
        assert("signature"@.len() == 9 && "signature"@[0] == 's');
        assert("signatureNonce"@.len() == 14);
        assert("signatureTimestamp"@.len() == 18);
        assert("utxoCallback"@.len() == 12);
    }

    /// Each member of the JSON object that compliance data is sent as holds its field.
    pub proof fn lemma_members(self)
        ensures
            ({
                let m = self.members();
                &&& m.dom().contains("utxos"@) && m["utxos"@] == json::text_list(self.utxos)
                &&& m.dom().contains("nodePubKey"@) && m["nodePubKey"@] == json::text_or_null(
                    self.node_pubkey,
                )
                &&& m.dom().contains("kycStatus"@) && m["kycStatus"@] == Json::Text(
                    self.kyc_status.name(),
                )
                &&& m.dom().contains("encryptedTravelRuleInfo"@) && m["encryptedTravelRuleInfo"@]
                    == json::text_or_null(self.encrypted_travel_rule_info)
                &&& m.dom().contains("travelRuleFormat"@) && m["travelRuleFormat"@]
                    == json::text_or_null(self.format_text())
                &&& m.dom().contains("signature"@) && m["signature"@] == Json::Text(self.signature)
                &&& m.dom().contains("signatureNonce"@) && m["signatureNonce"@] == Json::Text(
                    self.signature_nonce,
                )
                &&& m.dom().contains("signatureTimestamp"@) && m["signatureTimestamp"@]
                    == Json::Number(text::decimal_int(self.signature_timestamp as int))
                &&& m.dom().contains("utxoCallback"@) && m["utxoCallback"@] == Json::Text(
                    self.utxo_callback,
                )
            }),
    {
        CompliancePayerDataView::member_names_differ();
    }

    /// Compliance data is read back from the JSON object that it is sent as, but for the
    /// travel rule format, which is read from its text.
    pub proof fn read_of_members(self)
        ensures
            CompliancePayerDataView::read(Json::Object(self.members())) == Some(
                self.with_format_reread(),
            ),
    {
        self.lemma_members();
        json::as_text_list_of_texts(self.utxos);
        json::as_integer_of_number(self.signature_timestamp);
        self.kyc_status.named_of_name();
    }

    /// Compliance data is read back from the JSON object that it is sent as, if there is no
    /// `@` in the name of its travel rule format.
    pub proof fn read_of_members_exact(self)
        requires
            self.travel_rule_format matches Some(f) ==> !f.format.contains('@'),
        ensures
            CompliancePayerDataView::read(Json::Object(self.members())) == Some(self),
    {
        self.read_of_members();
        if let Some(f) = self.travel_rule_format {
            f.read_of_written();
        }
    }
}

fn opt_as_str(o: &Option<String>) -> (res: Option<&str>)
    ensures
        text::opt_str(res) == text::opt_text(*o),
{
    match o {
        Some(s) => Some(s.as_str()),
        None => None,
    }
}

impl CompliancePayerData {
    /// The JSON object that compliance data is sent as.
    pub fn to_json(&self) -> (res: serde_json::Value)
        ensures
            json::json_view(res) == Json::Object(self@.members()),
    {
        let format_text: Option<String> = match &self.travel_rule_format {
            Some(f) => Some(f.to_text()),
            None => None,
        };
        let mut res = json::object();
        json::set(&mut res, "utxos", json::string_list(self.utxos.as_slice()));
        json::set(&mut res, "nodePubKey", json::string_or_null(opt_as_str(&self.node_pubkey)));
        json::set(&mut res, "kycStatus", json::string(self.kyc_status.as_str()));
        json::set(
            &mut res,
            "encryptedTravelRuleInfo",
            json::string_or_null(opt_as_str(&self.encrypted_travel_rule_info)),
        );
        json::set(&mut res, "travelRuleFormat", json::string_or_null(opt_as_str(&format_text)));
        json::set(&mut res, "signature", json::string(self.signature.as_str()));
        json::set(&mut res, "signatureNonce", json::string(self.signature_nonce.as_str()));
        json::set(&mut res, "signatureTimestamp", json::integer(self.signature_timestamp));
        json::set(&mut res, "utxoCallback", json::string(self.utxo_callback.as_str()));
        res
    }

    /// Reads the compliance data that a JSON value is.
    pub fn from_json(v: &serde_json::Value) -> (res: Option<CompliancePayerData>)
        ensures
            match res {
                Some(data) => CompliancePayerDataView::read(json::json_view(*v)) == Some(data@),
                None => CompliancePayerDataView::read(json::json_view(*v)) is None,
            },
    {
        let utxos = match json::read_text_list(v, "utxos") {
            Some(utxos) => utxos,
            None => {
                return None;
            },
        };
        let node_pubkey = match json::read_opt_text(v, "nodePubKey") {
            Some(node_pubkey) => node_pubkey,
            None => {
                return None;
            },
        };
        let kyc_name = match json::read_text(v, "kycStatus") {
            Some(kyc_name) => kyc_name,
            None => {
                return None;
            },
        };
        let encrypted_travel_rule_info = match json::read_opt_text(v, "encryptedTravelRuleInfo") {
            Some(info) => info,
            None => {
                return None;
            },
        };
        let format_text = match json::read_opt_text(v, "travelRuleFormat") {
            Some(format_text) => format_text,
            None => {
                return None;
            },
        };
        let signature = match json::read_text(v, "signature") {
            Some(signature) => signature,
            None => {
                return None;
            },
        };
        let signature_nonce = match json::read_text(v, "signatureNonce") {
            Some(signature_nonce) => signature_nonce,
            None => {
                return None;
            },
        };
        let signature_timestamp: i64 = match json::read_integer(v, "signatureTimestamp") {
            Some(signature_timestamp) => signature_timestamp,
            None => {
                return None;
            },
        };
        let utxo_callback = match json::read_text(v, "utxoCallback") {
            Some(utxo_callback) => utxo_callback,
            None => {
                return None;
            },
        };
        let kyc_status = match KycStatus::from_name(kyc_name.as_str()) {
            Some(kyc_status) => kyc_status,
            None => {
                return None;
            },
        };
        let travel_rule_format = match format_text {
            Some(s) => Some(TravelRuleFormat::from_text(s.as_str())),
            None => None,
        };
        Some(
            CompliancePayerData {
                utxos,
                node_pubkey,
                kyc_status,
                encrypted_travel_rule_info,
                travel_rule_format,
                signature,
                signature_nonce,
                signature_timestamp,
                utxo_callback,
            },
        )
    }
}

/// What a sender tells about the payer: a JSON value, as a rule an object.
#[derive(Debug)]
pub struct PayerData(pub serde_json::Value);

impl View for PayerData {
    type V = Json;

    open spec fn view(&self) -> Json {
        json::json_view(self.0)
    }
}

/// The members of the payer data of a pay request.
pub open spec fn payer_members(
    identifier: Seq<char>,
    name: Option<Seq<char>>,
    email: Option<Seq<char>>,
    compliance: CompliancePayerDataView,
) -> Map<Seq<char>, Json> {
    Map::<Seq<char>, Json>::empty().insert("identifier"@, Json::Text(identifier)).insert(
        "name"@,
        json::text_or_null(name),
    ).insert("email"@, json::text_or_null(email)).insert(
        "compliance"@,
        Json::Object(compliance.members()),
    )
}

/// The identifier in payer data.
pub open spec fn payer_identifier(j: Json) -> Option<Seq<char>> {
    json::text_member(j, "identifier"@)
}

/// The compliance data in payer data: nothing if it is missing or null, an error if it is
/// something else than compliance data.
pub open spec fn payer_compliance(j: Json) -> Result<Option<CompliancePayerDataView>, Error> {
    match json::member(j, "compliance"@) {
        None | Some(Json::Null) => Ok(None),
        Some(v) => match CompliancePayerDataView::read(v) {
            Some(data) => Ok(Some(data)),
            None => Err(Error::InvalidPayerDataCompliance),
        },
    }
}

/// The names of the members of payer data differ from each other.
pub proof fn payer_member_names_differ()
    ensures
        "identifier"@.len() == 10 && "identifier"@[0] == 'i',
        "name"@.len() == 4,
        "email"@.len() == 5,
        "compliance"@.len() == 10 && "compliance"@[0] == 'c',
{
    reveal_strlit("identifier");
    reveal_strlit("name");
    reveal_strlit("email");
    reveal_strlit("compliance");
    assert("identifier"@.len() == 10 && "identifier"@[0] == 'i');
    assert("name"@.len() == 4);
    assert("email"@.len() == 5);
    assert("compliance"@.len() == 10 && "compliance"@[0] == 'c');
}

/// The identifier and the compliance data are read back from payer data, but for the travel
/// rule format, which is read from its text.
pub proof fn payer_data_reads_back(
    identifier: Seq<char>,
    name: Option<Seq<char>>,
    email: Option<Seq<char>>,
    compliance: CompliancePayerDataView,
)
    ensures
        payer_identifier(Json::Object(payer_members(identifier, name, email, compliance))) == Some(
            identifier,
        ),
        payer_compliance(Json::Object(payer_members(identifier, name, email, compliance)))
            == Ok::<_, Error>(Some(compliance.with_format_reread())),
{
    payer_member_names_differ();
    compliance.read_of_members();
}

impl PayerData {
    /// Makes payer data of an identifier, a name, an email address and compliance data.
    pub fn new(
        identifier: &str,
        name: Option<&str>,
        email: Option<&str>,
        compliance: &CompliancePayerData,
    ) -> (res: PayerData)
        ensures
            res@ == Json::Object(
                payer_members(identifier@, text::opt_str(name), text::opt_str(email), compliance@),
            ),
    {
        let mut value = json::object();
        json::set(&mut value, "identifier", json::string(identifier));
        json::set(&mut value, "name", json::string_or_null(name));
        json::set(&mut value, "email", json::string_or_null(email));
        json::set(&mut value, "compliance", compliance.to_json());
        PayerData(value)
    }

    /// The identifier in payer data.
    pub fn identifier(&self) -> (res: Option<String>)
        ensures
            text::opt_text(res) == payer_identifier(self@),
    {
        json::read_text(&self.0, "identifier")
    }

    /// The compliance data in payer data.
    pub fn compliance(&self) -> (res: Result<Option<CompliancePayerData>, Error>)
        ensures
            match res {
                Ok(Some(data)) => payer_compliance(self@) == Ok::<_, Error>(Some(data@)),
                Ok(None) => payer_compliance(self@) == Ok::<
                    Option<CompliancePayerDataView>,
                    Error,
                >(None),
                Err(e) => payer_compliance(self@) == Err::<Option<CompliancePayerDataView>, _>(e),
            },
    {
        match json::get(&self.0, "compliance") {
            Some(v) => if json::is_null(v) {
                Ok(None)
            } else {
                match CompliancePayerData::from_json(v) {
                    Some(data) => Ok(Some(data)),
                    None => Err(Error::InvalidPayerDataCompliance),
                }
            },
            None => Ok(None),
        }
    }
}

} // verus!
