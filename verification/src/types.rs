//! The decision data model.
//!
//! Three categorical fields of a decision (`Origin`, `Scope`,
//! `DecisionType`) are open enumerations: a fixed set of known wire
//! spellings plus a catch-all variant that preserves any other string
//! verbatim, so that values introduced by the server later are carried
//! through without loss. Decoding a string into them never fails, and
//! encoding reproduces the wire text exactly.

use vstd::prelude::*;

verus! {

/// Where a decision came from.
#[derive(Debug, Clone, PartialEq, Eq)]
pub enum Origin {
    Cscli,
    Crowdsec,
    Capi,
    Lists,
    Other(String),
}

/// Mathematical model of an `Origin`: the carried string as a sequence.
pub enum OriginV {
    Cscli,
    Crowdsec,
    Capi,
    Lists,
    Other(Seq<char>),
}

impl View for Origin {
    type V = OriginV;

    open spec fn view(&self) -> OriginV {
        match self {
            Origin::Cscli => OriginV::Cscli,
            Origin::Crowdsec => OriginV::Crowdsec,
            Origin::Capi => OriginV::Capi,
            Origin::Lists => OriginV::Lists,
            Origin::Other(s) => OriginV::Other(s@),
        }
    }
}

/// The origin denoted by a wire string: a known spelling gives its
/// variant, any other string is preserved verbatim.
pub open spec fn origin_of_wire(s: Seq<char>) -> OriginV {
    if s == "cscli"@ {
        OriginV::Cscli
    } else if s == "crowdsec"@ {
        OriginV::Crowdsec
    } else if s == "CAPI"@ {
        OriginV::Capi
    } else if s == "lists"@ {
        OriginV::Lists
    } else {
        OriginV::Other(s)
    }
}

/// The wire spelling of an origin: canonical lowercase for the known
/// variants (except `CAPI`, which is uppercase), the carried string for
/// the catch-all.
pub open spec fn origin_wire(o: OriginV) -> Seq<char> {
    match o {
        OriginV::Cscli => "cscli"@,
        OriginV::Crowdsec => "crowdsec"@,
        OriginV::Capi => "CAPI"@,
        OriginV::Lists => "lists"@,
        OriginV::Other(s) => s,
    }
}

impl Origin {
    /// Decode a wire string; this never fails.
    pub fn from_wire(s: &str) -> (r: Origin)
        ensures
            r@ == origin_of_wire(s@),
    {
        let t = s.to_owned();
        if t == "cscli".to_owned() {
            Origin::Cscli
        } else if t == "crowdsec".to_owned() {
            Origin::Crowdsec
        } else if t == "CAPI".to_owned() {
            Origin::Capi
        } else if t == "lists".to_owned() {
            Origin::Lists
        } else {
            Origin::Other(t)
        }
    }

    /// Encode back to the wire spelling.
    pub fn to_wire(&self) -> (r: String)
        ensures
            r@ == origin_wire(self@),
    {
        match self {
            Origin::Cscli => "cscli".to_owned(),
            Origin::Crowdsec => "crowdsec".to_owned(),
            Origin::Capi => "CAPI".to_owned(),
            Origin::Lists => "lists".to_owned(),
            Origin::Other(s) => s.clone(),
        }
    }
}

impl Default for Origin {
    fn default() -> (r: Origin)
        ensures
            r@ == OriginV::Cscli,
    {
        Origin::Cscli
    }
}

/// Law: encoding the origin decoded from any wire string reproduces that
/// string exactly, whether or not the spelling is a known one.
pub proof fn lemma_origin_wire_fidelity(s: Seq<char>)
    ensures
        origin_wire(origin_of_wire(s)) == s,
{
}

/// Law: every origin survives an encode-decode round trip — for the
/// catch-all, as long as the string it carries is not itself a known
/// spelling (such a value cannot arise from decoding).
pub proof fn lemma_origin_round_trip(o: OriginV)
    requires
        o matches OriginV::Other(s) ==> origin_of_wire(s) == OriginV::Other(s),
    ensures
        origin_of_wire(origin_wire(o)) == o,
{
    reveal_strlit("cscli");
    reveal_strlit("crowdsec");
    reveal_strlit("CAPI");
    reveal_strlit("lists");
    assert("crowdsec"@ != "cscli"@) by {
        assert("crowdsec"@.len() != "cscli"@.len());
    }
    assert("CAPI"@ != "cscli"@) by {
        assert("CAPI"@.len() != "cscli"@.len());
    }
    assert("CAPI"@ != "crowdsec"@) by {
        assert("CAPI"@.len() != "crowdsec"@.len());
    }
    assert("lists"@ != "cscli"@) by {
        assert("lists"@[0] == 'l' && "cscli"@[0] == 'c');
    }
    assert("lists"@ != "crowdsec"@) by {
        assert("lists"@.len() != "crowdsec"@.len());
    }
    assert("lists"@ != "CAPI"@) by {
        assert("lists"@.len() != "CAPI"@.len());
    }
}

/// What a decision applies to.
#[derive(Debug, Clone, PartialEq, Eq)]
pub enum Scope {
    Ip,
    Range,
    Other(String),
}

/// Mathematical model of a `Scope`.
pub enum ScopeV {
    Ip,
    Range,
    Other(Seq<char>),
}

impl View for Scope {
    type V = ScopeV;

    open spec fn view(&self) -> ScopeV {
        match self {
            Scope::Ip => ScopeV::Ip,
            Scope::Range => ScopeV::Range,
            Scope::Other(s) => ScopeV::Other(s@),
        }
    }
}

/// The scope denoted by a wire string; unknown spellings are preserved.
pub open spec fn scope_of_wire(s: Seq<char>) -> ScopeV {
    if s == "ip"@ {
        ScopeV::Ip
    } else if s == "range"@ {
        ScopeV::Range
    } else {
        ScopeV::Other(s)
    }
}

/// The canonical wire spelling of a scope.
pub open spec fn scope_wire(o: ScopeV) -> Seq<char> {
    match o {
        ScopeV::Ip => "ip"@,
        ScopeV::Range => "range"@,
        ScopeV::Other(s) => s,
    }
}

impl Scope {
    /// Decode a wire string; this never fails.
    pub fn from_wire(s: &str) -> (r: Scope)
        ensures
            r@ == scope_of_wire(s@),
    {
        let t = s.to_owned();
        if t == "ip".to_owned() {
            Scope::Ip
        } else if t == "range".to_owned() {
            Scope::Range
        } else {
            Scope::Other(t)
        }
    }

    /// Encode back to the wire spelling.
    pub fn to_wire(&self) -> (r: String)
        ensures
            r@ == scope_wire(self@),
    {
        match self {
            Scope::Ip => "ip".to_owned(),
            Scope::Range => "range".to_owned(),
            Scope::Other(s) => s.clone(),
        }
    }
}

impl Default for Scope {
    fn default() -> (r: Scope)
        ensures
            r@ == ScopeV::Ip,
    {
        Scope::Ip
    }
}

/// Law: encoding the scope decoded from any wire string reproduces that
/// string exactly.
pub proof fn lemma_scope_wire_fidelity(s: Seq<char>)
    ensures
        scope_wire(scope_of_wire(s)) == s,
{
}

/// Law: every scope survives an encode-decode round trip — for the
/// catch-all, as long as the string it carries is not itself a known
/// spelling.
pub proof fn lemma_scope_round_trip(o: ScopeV)
    requires
        o matches ScopeV::Other(s) ==> scope_of_wire(s) == ScopeV::Other(s),
    ensures
        scope_of_wire(scope_wire(o)) == o,
{
    reveal_strlit("ip");
    reveal_strlit("range");
    assert("range"@ != "ip"@) by {
        assert("range"@.len() != "ip"@.len());
    }
}

/// What kind of enforcement a decision asks for.
#[derive(Debug, Clone, PartialEq, Eq)]
pub enum DecisionType {
    Ban,
    Captcha,
    Other(String),
}

/// Mathematical model of a `DecisionType`.
pub enum DecisionTypeV {
    Ban,
    Captcha,
    Other(Seq<char>),
}

impl View for DecisionType {
    type V = DecisionTypeV;

    open spec fn view(&self) -> DecisionTypeV {
        match self {
            DecisionType::Ban => DecisionTypeV::Ban,
            DecisionType::Captcha => DecisionTypeV::Captcha,
            DecisionType::Other(s) => DecisionTypeV::Other(s@),
        }
    }
}

/// The decision type denoted by a wire string; unknown spellings are
/// preserved.
pub open spec fn decision_type_of_wire(s: Seq<char>) -> DecisionTypeV {
    if s == "ban"@ {
        DecisionTypeV::Ban
    } else if s == "captcha"@ {
        DecisionTypeV::Captcha
    } else {
        DecisionTypeV::Other(s)
    }
}

/// The canonical wire spelling of a decision type.
pub open spec fn decision_type_wire(o: DecisionTypeV) -> Seq<char> {
    match o {
        DecisionTypeV::Ban => "ban"@,
        DecisionTypeV::Captcha => "captcha"@,
        DecisionTypeV::Other(s) => s,
    }
}

impl DecisionType {
    /// Decode a wire string; this never fails.
    pub fn from_wire(s: &str) -> (r: DecisionType)
        ensures
            r@ == decision_type_of_wire(s@),
    {
        let t = s.to_owned();
        if t == "ban".to_owned() {
            DecisionType::Ban
        } else if t == "captcha".to_owned() {
            DecisionType::Captcha
        } else {
            DecisionType::Other(t)
        }
    }

    /// Encode back to the wire spelling.
    pub fn to_wire(&self) -> (r: String)
        ensures
            r@ == decision_type_wire(self@),
    {
        match self {
            DecisionType::Ban => "ban".to_owned(),
            DecisionType::Captcha => "captcha".to_owned(),
            DecisionType::Other(s) => s.clone(),
        }
    }
}

impl Default for DecisionType {
    fn default() -> (r: DecisionType)
        ensures
            r@ == DecisionTypeV::Ban,
    {
        DecisionType::Ban
    }
}

/// Law: encoding the decision type decoded from any wire string
/// reproduces that string exactly.
pub proof fn lemma_decision_type_wire_fidelity(s: Seq<char>)
    ensures
        decision_type_wire(decision_type_of_wire(s)) == s,
{
}

/// Law: every decision type survives an encode-decode round trip — for
/// the catch-all, as long as the string it carries is not itself a known
/// spelling.
pub proof fn lemma_decision_type_round_trip(o: DecisionTypeV)
    requires
        o matches DecisionTypeV::Other(s) ==> decision_type_of_wire(s) == DecisionTypeV::Other(s),
    ensures
        decision_type_of_wire(decision_type_wire(o)) == o,
{
    reveal_strlit("ban");
    reveal_strlit("captcha");
    assert("captcha"@ != "ban"@) by {
        assert("captcha"@.len() != "ban"@.len());
    }
}

/// An instant, as the wire's RFC-3339 timestamps denote one: whole
/// seconds since the Unix epoch, plus the nanoseconds within the second.
#[derive(Debug, Clone, Copy, PartialEq, Eq, Structural)]
pub struct Timestamp {
    pub unix_seconds: i64,
    pub nanoseconds: u32,
}

/// A single enforcement decision.
#[derive(Debug, Clone, PartialEq, Eq)]
pub struct Decision {
    pub duration: String,
    pub id: Option<i64>,
    pub origin: Origin,
    pub scenario: String,
    pub scope: Scope,
    pub simulated: Option<bool>,
    pub type_: DecisionType,
    pub until: Option<Timestamp>,
    pub uuid: Option<String>,
    pub value: String,
}

/// Mathematical model of a `Decision`.
pub struct DecisionV {
    pub duration: Seq<char>,
    pub id: Option<i64>,
    pub origin: OriginV,
    pub scenario: Seq<char>,
    pub scope: ScopeV,
    pub simulated: Option<bool>,
    pub type_: DecisionTypeV,
    pub until: Option<Timestamp>,
    pub uuid: Option<Seq<char>>,
    pub value: Seq<char>,
}

impl View for Decision {
    type V = DecisionV;

    open spec fn view(&self) -> DecisionV {
        DecisionV {
            duration: self.duration@,
            id: self.id,
            origin: self.origin@,
            scenario: self.scenario@,
            scope: self.scope@,
            simulated: self.simulated,
            type_: self.type_@,
            until: self.until,
            uuid: match self.uuid {
                Some(ref s) => Some(s@),
                None => None,
            },
            value: self.value@,
        }
    }
}

impl Default for Decision {
    fn default() -> (r: Decision)
        ensures
            r@.duration == ""@,
            r@.id is None,
            r@.origin == OriginV::Cscli,
            r@.scenario == ""@,
            r@.scope == ScopeV::Ip,
            r@.simulated is None,
            r@.type_ == DecisionTypeV::Ban,
            r@.until is None,
            r@.uuid is None,
            r@.value == ""@,
    {
        proof {
            reveal_strlit("");
            assert(""@ =~= Seq::<char>::empty());
        }
        Decision {
            duration: String::new(),
            id: None,
            origin: Origin::Cscli,
            scenario: String::new(),
            scope: Scope::Ip,
            simulated: None,
            type_: DecisionType::Ban,
            until: None,
            uuid: None,
            value: String::new(),
        }
    }
}

/// One poll's worth of changes: decisions added and decisions removed
/// since the previous poll.
#[derive(Debug, Clone, PartialEq, Eq)]
pub struct DecisionsResponse {
    pub new: Vec<Decision>,
    pub deleted: Vec<Decision>,
}

/// Mathematical model of a `DecisionsResponse`.
pub struct DecisionsResponseV {
    pub new: Seq<DecisionV>,
    pub deleted: Seq<DecisionV>,
}

impl View for DecisionsResponse {
    type V = DecisionsResponseV;

    open spec fn view(&self) -> DecisionsResponseV {
        DecisionsResponseV {
            new: self.new@.map_values(|d: Decision| d@),
            deleted: self.deleted@.map_values(|d: Decision| d@),
        }
    }
}

} // verus!
