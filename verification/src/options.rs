//! The query-options model, its fluent builder, and its flattening wire
//! encoding.
//!
//! In memory the options keep one unified sequence of tagged scenario
//! filters. Only the wire form splits it: at encoding time the sequence
//! is partitioned into `scenarios_containing` and
//! `scenarios_not_containing`, two sibling fields of the encoded object,
//! each preserving the relative order of its entries; no `scenarios` key
//! is ever emitted.

use vstd::prelude::*;

use crate::json::{JsonValue, lookup};

verus! {

/// One scenario filter: ask for decisions whose scenario does, or does
/// not, contain the carried text.
#[derive(Debug, Clone, PartialEq, Eq)]
pub enum ScenarioQueryOptions {
    Containing(String),
    NotContaining(String),
}

/// Mathematical model of a `ScenarioQueryOptions`.
pub enum ScenarioQueryOptionsV {
    Containing(Seq<char>),
    NotContaining(Seq<char>),
}

impl View for ScenarioQueryOptions {
    type V = ScenarioQueryOptionsV;

    open spec fn view(&self) -> ScenarioQueryOptionsV {
        match self {
            ScenarioQueryOptions::Containing(s) => ScenarioQueryOptionsV::Containing(s@),
            ScenarioQueryOptions::NotContaining(s) => ScenarioQueryOptionsV::NotContaining(s@),
        }
    }
}

/// Which decisions one poll asks for.
#[derive(Debug, Clone, PartialEq, Eq)]
pub struct DecisionsStreamOptions {
    /// True when the consumer is starting cold and needs the full list
    /// rather than a delta.
    pub startup: bool,
    pub scopes: Vec<String>,
    pub origins: Vec<String>,
    pub scenarios: Vec<ScenarioQueryOptions>,
}

/// Mathematical model of a `DecisionsStreamOptions`.
pub struct DecisionsStreamOptionsV {
    pub startup: bool,
    pub scopes: Seq<Seq<char>>,
    pub origins: Seq<Seq<char>>,
    pub scenarios: Seq<ScenarioQueryOptionsV>,
}

/// The views of a sequence of strings.
pub open spec fn string_views(s: Seq<String>) -> Seq<Seq<char>> {
    s.map_values(|x: String| x@)
}

impl View for DecisionsStreamOptions {
    type V = DecisionsStreamOptionsV;

    open spec fn view(&self) -> DecisionsStreamOptionsV {
        DecisionsStreamOptionsV {
            startup: self.startup,
            scopes: string_views(self.scopes@),
            origins: string_views(self.origins@),
            scenarios: self.scenarios@.map_values(|x: ScenarioQueryOptions| x@),
        }
    }
}

impl Default for DecisionsStreamOptions {
    /// No filters at all: not a cold start, and empty filter sequences.
    fn default() -> (r: DecisionsStreamOptions)
        ensures
            !r@.startup,
            r@.scopes == Seq::<Seq<char>>::empty(),
            r@.origins == Seq::<Seq<char>>::empty(),
            r@.scenarios == Seq::<ScenarioQueryOptionsV>::empty(),
    {
        let r = DecisionsStreamOptions {
            startup: false,
            scopes: Vec::new(),
            origins: Vec::new(),
            scenarios: Vec::new(),
        };
        proof {
            assert(r@.scopes =~= Seq::<Seq<char>>::empty());
            assert(r@.origins =~= Seq::<Seq<char>>::empty());
            assert(r@.scenarios =~= Seq::<ScenarioQueryOptionsV>::empty());
        }
        r
    }
}

/// Accumulates filter criteria without requiring all fields upfront.
/// Every mutator consumes the builder and returns it by value, so no
/// intermediate state is aliased; `build` yields the finished options.
pub struct DecisionsStreamOptionsBuilder(DecisionsStreamOptions);

impl View for DecisionsStreamOptionsBuilder {
    type V = DecisionsStreamOptionsV;

    closed spec fn view(&self) -> DecisionsStreamOptionsV {
        self.0@
    }
}

impl DecisionsStreamOptionsBuilder {
    /// Start from the default options.
    pub fn new() -> (r: Self)
        ensures
            !r@.startup,
            r@.scopes == Seq::<Seq<char>>::empty(),
            r@.origins == Seq::<Seq<char>>::empty(),
            r@.scenarios == Seq::<ScenarioQueryOptionsV>::empty(),
    {
        Self(DecisionsStreamOptions::default())
    }

    /// Start from already accumulated options.
    pub fn from_options(opts: DecisionsStreamOptions) -> (r: Self)
        ensures
            r@ == opts@,
    {
        Self(opts)
    }

    /// Set the cold-start flag.
    pub fn startup(self, startup: bool) -> (r: Self)
        ensures
            r@.startup == startup,
            r@.scopes == self@.scopes,
            r@.origins == self@.origins,
            r@.scenarios == self@.scenarios,
    {
        let Self(mut opts) = self;
        opts.startup = startup;
        Self(opts)
    }

    /// Append a scope filter.
    pub fn scope(self, scope: String) -> (r: Self)
        ensures
            r@.startup == self@.startup,
            r@.scopes == self@.scopes.push(scope@),
            r@.origins == self@.origins,
            r@.scenarios == self@.scenarios,
    {
        let Self(mut opts) = self;
        let ghost before = opts.scopes@;
        opts.scopes.push(scope);
        proof {
            assert(string_views(opts.scopes@) =~= string_views(before).push(scope@));
        }
        Self(opts)
    }

    /// Append an origin filter.
    pub fn origin(self, origin: String) -> (r: Self)
        ensures
            r@.startup == self@.startup,
            r@.scopes == self@.scopes,
            r@.origins == self@.origins.push(origin@),
            r@.scenarios == self@.scenarios,
    {
        let Self(mut opts) = self;
        let ghost before = opts.origins@;
        opts.origins.push(origin);
        proof {
            assert(string_views(opts.origins@) =~= string_views(before).push(origin@));
        }
        Self(opts)
    }

    /// Append a scenario filter.
    pub fn scenario(self, scenario: ScenarioQueryOptions) -> (r: Self)
        ensures
            r@.startup == self@.startup,
            r@.scopes == self@.scopes,
            r@.origins == self@.origins,
            r@.scenarios == self@.scenarios.push(scenario@),
    {
        let Self(mut opts) = self;
        let ghost before = opts.scenarios@;
        opts.scenarios.push(scenario);
        proof {
            assert(opts.scenarios@.map_values(|x: ScenarioQueryOptions| x@) =~= before.map_values(
                |x: ScenarioQueryOptions| x@,
            ).push(scenario@));
        }
        Self(opts)
    }

    /// Append a scenario filter asking for scenarios containing the text.
    pub fn scenario_containing(self, scenario: String) -> (r: Self)
        ensures
            r@.startup == self@.startup,
            r@.scopes == self@.scopes,
            r@.origins == self@.origins,
            r@.scenarios == self@.scenarios.push(ScenarioQueryOptionsV::Containing(scenario@)),
    {
        self.scenario(ScenarioQueryOptions::Containing(scenario))
    }

    /// Append a scenario filter asking for scenarios not containing the
    /// text.
    pub fn scenario_not_containing(self, scenario: String) -> (r: Self)
        ensures
            r@.startup == self@.startup,
            r@.scopes == self@.scopes,
            r@.origins == self@.origins,
            r@.scenarios == self@.scenarios.push(ScenarioQueryOptionsV::NotContaining(scenario@)),
    {
        self.scenario(ScenarioQueryOptions::NotContaining(scenario))
    }

    /// Yield the finished, immutable options.
    pub fn build(self) -> (r: DecisionsStreamOptions)
        ensures
            r@ == self@,
    {
        self.0
    }
}

/// The values carried by the `Containing` entries, in their original
/// relative order.
pub open spec fn containing_values(s: Seq<ScenarioQueryOptionsV>) -> Seq<Seq<char>>
    decreases s.len(),
{
    if s.len() == 0 {
        Seq::empty()
    } else {
        let rest = containing_values(s.drop_last());
        match s.last() {
            ScenarioQueryOptionsV::Containing(v) => rest.push(v),
            _ => rest,
        }
    }
}

/// The values carried by the `NotContaining` entries, in their original
/// relative order.
pub open spec fn not_containing_values(s: Seq<ScenarioQueryOptionsV>) -> Seq<Seq<char>>
    decreases s.len(),
{
    if s.len() == 0 {
        Seq::empty()
    } else {
        let rest = not_containing_values(s.drop_last());
        match s.last() {
            ScenarioQueryOptionsV::NotContaining(v) => rest.push(v),
            _ => rest,
        }
    }
}

/// `containing_values` is exactly: keep the `Containing` entries, in
/// order, and take their values.
pub proof fn lemma_containing_values_are_filtered(s: Seq<ScenarioQueryOptionsV>)
    ensures
        containing_values(s) == s.filter(|x: ScenarioQueryOptionsV| x is Containing).map_values(
            |x: ScenarioQueryOptionsV| x->Containing_0,
        ),
    decreases s.len(),
{
    reveal(Seq::filter);
    let pred = |x: ScenarioQueryOptionsV| x is Containing;
    let val = |x: ScenarioQueryOptionsV| x->Containing_0;
    if s.len() == 0 {
        assert(containing_values(s) =~= s.filter(pred).map_values(val));
    } else {
        lemma_containing_values_are_filtered(s.drop_last());
        if pred(s.last()) {
            assert(s.filter(pred).map_values(val) =~= s.drop_last().filter(pred).map_values(
                val,
            ).push(val(s.last())));
        }
    }
}

/// `not_containing_values` is exactly: keep the `NotContaining` entries,
/// in order, and take their values.
pub proof fn lemma_not_containing_values_are_filtered(s: Seq<ScenarioQueryOptionsV>)
    ensures
        not_containing_values(s) == s.filter(
            |x: ScenarioQueryOptionsV| x is NotContaining,
        ).map_values(|x: ScenarioQueryOptionsV| x->NotContaining_0),
    decreases s.len(),
{
    reveal(Seq::filter);
    let pred = |x: ScenarioQueryOptionsV| x is NotContaining;
    let val = |x: ScenarioQueryOptionsV| x->NotContaining_0;
    if s.len() == 0 {
        assert(not_containing_values(s) =~= s.filter(pred).map_values(val));
    } else {
        lemma_not_containing_values_are_filtered(s.drop_last());
        if pred(s.last()) {
            assert(s.filter(pred).map_values(val) =~= s.drop_last().filter(pred).map_values(
                val,
            ).push(val(s.last())));
        }
    }
}

/// A JSON array of exactly these strings, in this order.
pub open spec fn is_string_array(j: JsonValue, vals: Seq<Seq<char>>) -> bool {
    &&& j is Arr
    &&& j->Arr_0@.len() == vals.len()
    &&& forall|i: int|
        0 <= i < vals.len() ==> ((#[trigger] j->Arr_0@[i]) matches JsonValue::Str(s) && s@
            == vals[i])
}

/// The wire form of the options: an object of exactly these five
/// fields, in this order — the stored `scenarios` sequence appears only
/// partitioned into the two derived arrays.
pub open spec fn options_wire_ok(o: DecisionsStreamOptionsV, j: JsonValue) -> bool {
    &&& j is Obj
    &&& j->Obj_0@.len() == 5
    &&& j->Obj_0@[0].0@ == "startup"@ && j->Obj_0@[0].1 == JsonValue::Bool(o.startup)
    &&& j->Obj_0@[1].0@ == "scopes"@ && is_string_array(j->Obj_0@[1].1, o.scopes)
    &&& j->Obj_0@[2].0@ == "origins"@ && is_string_array(j->Obj_0@[2].1, o.origins)
    &&& j->Obj_0@[3].0@ == "scenarios_containing"@ && is_string_array(
        j->Obj_0@[3].1,
        containing_values(o.scenarios),
    )
    &&& j->Obj_0@[4].0@ == "scenarios_not_containing"@ && is_string_array(
        j->Obj_0@[4].1,
        not_containing_values(o.scenarios),
    )
}

/// Partition the scenario filters into the two wire arrays, each keeping
/// its entries' original relative order.
pub fn partition_scenarios(scenarios: &Vec<ScenarioQueryOptions>) -> (r: (Vec<String>, Vec<
    String,
>))
    ensures
        string_views(r.0@) == containing_values(
            scenarios@.map_values(|x: ScenarioQueryOptions| x@),
        ),
        string_views(r.1@) == not_containing_values(
            scenarios@.map_values(|x: ScenarioQueryOptions| x@),
        ),
{
    let ghost sv = scenarios@.map_values(|x: ScenarioQueryOptions| x@);
    let mut containing: Vec<String> = Vec::new();
    let mut not_containing: Vec<String> = Vec::new();
    proof {
        assert(sv.take(0) =~= Seq::<ScenarioQueryOptionsV>::empty());
        assert(string_views(containing@) =~= Seq::<Seq<char>>::empty());
        assert(string_views(not_containing@) =~= Seq::<Seq<char>>::empty());
    }
    let mut i: usize = 0;
    while i < scenarios.len()
        invariant
            0 <= i <= scenarios@.len(),
            sv == scenarios@.map_values(|x: ScenarioQueryOptions| x@),
            string_views(containing@) == containing_values(sv.take(i as int)),
            string_views(not_containing@) == not_containing_values(sv.take(i as int)),
        decreases scenarios@.len() - i,
    {
        let ghost cont_before = containing@;
        let ghost not_before = not_containing@;
        proof {
            assert(sv.take(i as int + 1).drop_last() =~= sv.take(i as int));
            assert(sv.take(i as int + 1).last() == sv[i as int]);
        }
        match &scenarios[i] {
            ScenarioQueryOptions::Containing(v) => {
                containing.push(v.clone());
                proof {
                    assert(string_views(containing@) =~= string_views(cont_before).push(v@));
                }
            },
            ScenarioQueryOptions::NotContaining(v) => {
                not_containing.push(v.clone());
                proof {
                    assert(string_views(not_containing@) =~= string_views(not_before).push(v@));
                }
            },
        }
        i = i + 1;
    }
    proof {
        assert(sv.take(i as int) =~= sv);
    }
    (containing, not_containing)
}

/// Wrap a vector of strings as a JSON array of strings.
fn strings_to_json(vals: &Vec<String>) -> (r: JsonValue)
    ensures
        is_string_array(r, string_views(vals@)),
{
    let mut out: Vec<JsonValue> = Vec::new();
    let mut i: usize = 0;
    while i < vals.len()
        invariant
            0 <= i <= vals@.len(),
            out@.len() == i,
            forall|k: int|
                0 <= k < i ==> ((#[trigger] out@[k]) matches JsonValue::Str(s) && s@
                    == vals@[k]@),
        decreases vals@.len() - i,
    {
        out.push(JsonValue::Str(vals[i].clone()));
        i = i + 1;
    }
    JsonValue::Arr(out)
}

impl DecisionsStreamOptions {
    /// Encode the options for the wire: the five flattened fields, the
    /// scenario filters partitioned, and no `scenarios` key.
    pub fn to_wire_json(&self) -> (r: JsonValue)
        ensures
            options_wire_ok(self@, r),
    {
        let (containing, not_containing) = partition_scenarios(&self.scenarios);
        let mut fields: Vec<(String, JsonValue)> = Vec::new();
        fields.push(("startup".to_owned(), JsonValue::Bool(self.startup)));
        fields.push(("scopes".to_owned(), strings_to_json(&self.scopes)));
        fields.push(("origins".to_owned(), strings_to_json(&self.origins)));
        fields.push(("scenarios_containing".to_owned(), strings_to_json(&containing)));
        fields.push(("scenarios_not_containing".to_owned(), strings_to_json(&not_containing)));
        JsonValue::Obj(fields)
    }
}

/// The wire text of the cold-start flag.
pub open spec fn bool_wire(b: bool) -> Seq<char> {
    if b {
        "true"@
    } else {
        "false"@
    }
}

/// One repeated-key query pair per array element, in order.
pub open spec fn repeated_pairs(key: Seq<char>, vals: Seq<Seq<char>>) -> Seq<
    (Seq<char>, Seq<char>),
> {
    vals.map_values(|v: Seq<char>| (key, v))
}

/// The views of a sequence of query pairs.
pub open spec fn pair_views(s: Seq<(String, String)>) -> Seq<(Seq<char>, Seq<char>)> {
    s.map_values(|p: (String, String)| (p.0@, p.1@))
}

/// The flattened options as query parameters, repeated-key convention:
/// the cold-start flag first, then one pair per scope, origin and
/// partitioned scenario filter, each group in its original order.
pub open spec fn query_pairs_of(o: DecisionsStreamOptionsV) -> Seq<(Seq<char>, Seq<char>)> {
    seq![("startup"@, bool_wire(o.startup))] + repeated_pairs("scopes"@, o.scopes)
        + repeated_pairs("origins"@, o.origins) + repeated_pairs(
        "scenarios_containing"@,
        containing_values(o.scenarios),
    ) + repeated_pairs("scenarios_not_containing"@, not_containing_values(o.scenarios))
}

fn push_repeated(out: &mut Vec<(String, String)>, key: &str, vals: &Vec<String>)
    ensures
        pair_views(final(out)@) == pair_views(old(out)@) + repeated_pairs(
            key@,
            string_views(vals@),
        ),
{
    let ghost at_entry = out@;
    proof {
        assert(string_views(vals@.take(0)) =~= Seq::<Seq<char>>::empty());
        assert(pair_views(at_entry) =~= pair_views(at_entry) + repeated_pairs(
            key@,
            string_views(vals@.take(0)),
        ));
    }
    let mut i: usize = 0;
    while i < vals.len()
        invariant
            0 <= i <= vals@.len(),
            pair_views(out@) == pair_views(at_entry) + repeated_pairs(
                key@,
                string_views(vals@.take(i as int)),
            ),
        decreases vals@.len() - i,
    {
        let ghost prev = out@;
        out.push((key.to_owned(), vals[i].clone()));
        proof {
            assert(pair_views(out@) =~= pair_views(prev).push((key@, vals@[i as int]@)));
            assert(string_views(vals@.take(i as int + 1)) =~= string_views(
                vals@.take(i as int),
            ).push(vals@[i as int]@));
            assert(pair_views(at_entry) + repeated_pairs(
                key@,
                string_views(vals@.take(i as int + 1)),
            ) =~= (pair_views(at_entry) + repeated_pairs(
                key@,
                string_views(vals@.take(i as int)),
            )).push((key@, vals@[i as int]@)));
        }
        i = i + 1;
    }
    proof {
        assert(vals@.take(i as int) =~= vals@);
    }
}

impl DecisionsStreamOptions {
    /// Encode the options as query parameters for the decisions request,
    /// one pair per array element (repeated-key convention), the
    /// scenario filters partitioned as on the wire.
    pub fn to_query_pairs(&self) -> (r: Vec<(String, String)>)
        ensures
            pair_views(r@) == query_pairs_of(self@),
    {
        let (containing, not_containing) = partition_scenarios(&self.scenarios);
        let mut out: Vec<(String, String)> = Vec::new();
        let startup_text = if self.startup {
            "true".to_owned()
        } else {
            "false".to_owned()
        };
        out.push(("startup".to_owned(), startup_text));
        proof {
            assert(pair_views(out@) =~= seq![("startup"@, bool_wire(self.startup))]);
        }
        push_repeated(&mut out, "scopes", &self.scopes);
        push_repeated(&mut out, "origins", &self.origins);
        push_repeated(&mut out, "scenarios_containing", &containing);
        push_repeated(&mut out, "scenarios_not_containing", &not_containing);
        proof {
            assert(pair_views(out@) =~= query_pairs_of(self@));
        }
        out
    }
}

proof fn lemma_lookup_none(entries: Seq<(String, JsonValue)>, key: Seq<char>)
    requires
        forall|i: int| 0 <= i < entries.len() ==> (#[trigger] entries[i].0)@ != key,
    ensures
        lookup(entries, key) is None,
    decreases entries.len(),
{
    if entries.len() > 0 {
        assert(forall|i: int|
            0 <= i < entries.skip(1).len() ==> (#[trigger] entries.skip(1)[i].0)@ != key);
        lemma_lookup_none(entries.skip(1), key);
    }
}

proof fn lemma_lookup_first_match(entries: Seq<(String, JsonValue)>, key: Seq<char>, i: int)
    requires
        0 <= i < entries.len(),
        entries[i].0@ == key,
        forall|j: int| 0 <= j < i ==> (#[trigger] entries[j].0)@ != key,
    ensures
        lookup(entries, key) == Some(entries[i].1),
    decreases i,
{
    if i > 0 {
        lemma_lookup_first_match(entries.skip(1), key, i - 1);
    }
}

/// Law: looked up in the wire form of any options value, the
/// `scenarios_containing` and `scenarios_not_containing` keys hold
/// exactly the values of the `Containing` and `NotContaining` entries,
/// each in its original relative order — and the `scenarios` key is not
/// present at all.
pub proof fn lemma_scenarios_flattening(o: DecisionsStreamOptionsV, j: JsonValue)
    requires
        options_wire_ok(o, j),
    ensures
        lookup(j->Obj_0@, "scenarios_containing"@) matches Some(a) && is_string_array(
            a,
            o.scenarios.filter(|x: ScenarioQueryOptionsV| x is Containing).map_values(
                |x: ScenarioQueryOptionsV| x->Containing_0,
            ),
        ),
        lookup(j->Obj_0@, "scenarios_not_containing"@) matches Some(a) && is_string_array(
            a,
            o.scenarios.filter(|x: ScenarioQueryOptionsV| x is NotContaining).map_values(
                |x: ScenarioQueryOptionsV| x->NotContaining_0,
            ),
        ),
        lookup(j->Obj_0@, "scenarios"@) is None,
{
    lemma_containing_values_are_filtered(o.scenarios);
    lemma_not_containing_values_are_filtered(o.scenarios);
    let e = j->Obj_0@;
    proof_strlit_facts();
    lemma_lookup_first_match(e, "scenarios_containing"@, 3);
    lemma_lookup_first_match(e, "scenarios_not_containing"@, 4);
    assert(forall|i: int| 0 <= i < e.len() ==> (#[trigger] e[i].0)@ != "scenarios"@);
    lemma_lookup_none(e, "scenarios"@);
}

proof fn proof_strlit_facts()
    ensures
        "startup"@.len() == 7,
        "scopes"@.len() == 6,
        "origins"@.len() == 7,
        "scenarios_containing"@.len() == 20,
        "scenarios_not_containing"@.len() == 24,
        "scenarios"@.len() == 9,
        "startup"@ != "scenarios_containing"@,
        "scopes"@ != "scenarios_containing"@,
        "origins"@ != "scenarios_containing"@,
        "startup"@ != "scenarios_not_containing"@,
        "scopes"@ != "scenarios_not_containing"@,
        "origins"@ != "scenarios_not_containing"@,
        "scenarios_containing"@ != "scenarios_not_containing"@,
        "startup"@ != "scenarios"@,
        "scopes"@ != "scenarios"@,
        "origins"@ != "scenarios"@,
        "scenarios_containing"@ != "scenarios"@,
        "scenarios_not_containing"@ != "scenarios"@,
{
    reveal_strlit("startup");
    reveal_strlit("scopes");
    reveal_strlit("origins");
    reveal_strlit("scenarios_containing");
    reveal_strlit("scenarios_not_containing");
    reveal_strlit("scenarios");
    assert("origins"@ != "scenarios_not_containing"@) by {
        assert("origins"@.len() != "scenarios_not_containing"@.len());
    }
    assert("startup"@ != "scenarios_not_containing"@) by {
        assert("startup"@.len() != "scenarios_not_containing"@.len());
    }
    assert("scopes"@ != "scenarios_not_containing"@) by {
        assert("scopes"@.len() != "scenarios_not_containing"@.len());
    }
    assert("scenarios_containing"@ != "scenarios_not_containing"@) by {
        assert("scenarios_containing"@.len() != "scenarios_not_containing"@.len());
    }
}

} // verus!
