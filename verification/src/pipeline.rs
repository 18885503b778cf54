//! The pipeline: an ordered chain of filters, run front to back until one
//! refuses.
//!
//! The order of the chain is part of its meaning. The first filter that does
//! not accept decides, no filter behind it is asked, and none behind it can
//! overturn what it said: whoever orders the filters chooses which of them
//! takes precedence.

use crate::filters::{Forwarder, Kinds, ProtectedEvents, RateLimit, Whitelist};
use crate::listing::{is_listed, lemma_lists_push, lists};
use crate::messages::{Action, InputMessage, OutputMessage, Verdict};
use crate::note_filter::NoteFilter;
use vstd::prelude::*;

verus! {

/// The kind of request that enters the pipeline.
pub const NEW_SUBMISSION: &'static str = "new";

/// The reason given to a request of any other kind.
pub const INVALID_INPUT: &'static str = "invalid strfry write policy input";

/// Why a pipeline could not be built.
#[derive(Clone, Debug, PartialEq, Eq)]
pub enum ConfigError {
    /// The pipeline names a filter that is not registered.
    NotRegistered { name: String },
    /// The configuration under `name` does not fit the filter.
    Invalid { name: String, reason: String },
}

/// One place in the pipeline, and the filter that stands there.
pub struct Stage {
    pub filter: Box<dyn NoteFilter>,
}

/// Whether the filter at position `at`, as it stands, may accept `msg`.
pub open spec fn may_accept(filters: Seq<Stage>, at: int, msg: &InputMessage) -> bool {
    exists|v: Verdict| !v.is_final() && #[trigger] filters[at].filter.admits(msg, v)
}

/// Whether each of the first `upto` filters may accept `msg`.
pub open spec fn passes(filters: Seq<Stage>, msg: &InputMessage, upto: int) -> bool {
    forall|j: int| 0 <= j < upto ==> #[trigger] may_accept(filters, j, msg)
}

/// Whether a run of the pipeline `before` on `msg` may end at position `at`
/// with verdict `out`, leaving the filters as `after`.
///
/// For `at` below the length, filter `at` is the first one to refuse and its
/// verdict is the result; no filter behind it is touched. For `at` equal to
/// the length every filter accepted, and the result is the last acceptance,
/// or an acceptance without reason where there is no filter at all.
pub open spec fn ends_at(
    before: Seq<Stage>,
    after: Seq<Stage>,
    msg: &InputMessage,
    out: Verdict,
    at: int,
) -> bool {
    &&& 0 <= at <= before.len()
    &&& after.len() == before.len()
    &&& passes(before, msg, at)
    &&& at < before.len() ==> {
        &&& out.is_final()
        &&& before[at].filter.admits(msg, out)
        &&& forall|j: int| at < j < before.len() ==> after[j] == before[j]
    }
    &&& at == before.len() ==> if at == 0 {
        out == Verdict::accept(msg.event.id@)
    } else {
        !out.is_final() && before[at - 1].filter.admits(msg, out)
    }
}

/// Whether `bind` may give a filter for the name at position `at`.
pub open spec fn binds_at<B: Fn(&String) -> Result<Stage, String>>(
    names: Seq<String>,
    bind: B,
    at: int,
) -> bool {
    exists|stage: Stage| #[trigger] bind.ensures((&names[at],), Ok(stage))
}

/// Whether `found` is the fault that stops the building of a pipeline at
/// position `at` of `names`: every earlier name is registered and bound, and
/// the name at `at` is either not registered or, being registered, was
/// refused by `bind` for the reason given.
pub open spec fn faults_at<B: Fn(&String) -> Result<Stage, String>>(
    registered: Seq<String>,
    names: Seq<String>,
    bind: B,
    at: int,
    found: ConfigError,
) -> bool {
    &&& 0 <= at < names.len()
    &&& forall|j: int| 0 <= j < at ==> lists(registered, (#[trigger] names[j])@)
    &&& forall|j: int| 0 <= j < at ==> #[trigger] binds_at(names, bind, j)
    &&& match found {
        ConfigError::NotRegistered { name } => {
            &&& name@ == names[at]@
            &&& !lists(registered, names[at]@)
        },
        ConfigError::Invalid { name, reason } => {
            &&& name@ == names[at]@
            &&& lists(registered, names[at]@)
            &&& bind.ensures((&names[at],), Err(reason))
        },
    }
}

/// An empty pipeline accepts everything, and gives no reason.
pub proof fn lemma_empty_pipeline_accepts(
    after: Seq<Stage>,
    msg: &InputMessage,
    out: Verdict,
    at: int,
)
    requires
        ends_at(Seq::<Stage>::empty(), after, msg, out, at),
    ensures
        out == Verdict::accept(msg.event.id@),
        after.len() == 0,
{
}

/// The first refusal wins. Where the filter at position `first` can only
/// answer `msg` with the refusal `refusal`, and no filter before it can
/// refuse, every run ends there: the result is that refusal, unchanged, and
/// every filter behind `first` is left exactly as it was, whatever it would
/// have said.
pub proof fn lemma_first_refusal_wins(
    before: Seq<Stage>,
    after: Seq<Stage>,
    msg: &InputMessage,
    out: Verdict,
    at: int,
    first: int,
    refusal: Verdict,
)
    requires
        ends_at(before, after, msg, out, at),
        0 <= first < before.len(),
        refusal.is_final(),
        forall|v: Verdict| #[trigger] before[first].filter.admits(msg, v) ==> v == refusal,
        forall|j: int, v: Verdict|
            0 <= j < first && #[trigger] before[j].filter.admits(msg, v) ==> !v.is_final(),
    ensures
        at == first,
        out == refusal,
        forall|j: int| first < j < before.len() ==> after[j] == before[j],
{
    if at > first {
        assert(may_accept(before, first, msg));
    }
}

/// A refusal is never overturned: however a run ends, if some filter can
/// only refuse `msg`, the result is a refusal, given by that filter or by
/// one before it, and nothing behind that filter is touched.
pub proof fn lemma_refusal_is_final(
    before: Seq<Stage>,
    after: Seq<Stage>,
    msg: &InputMessage,
    out: Verdict,
    at: int,
    refusing: int,
)
    requires
        ends_at(before, after, msg, out, at),
        0 <= refusing < before.len(),
        forall|v: Verdict| #[trigger] before[refusing].filter.admits(msg, v) ==> v.is_final(),
    ensures
        at <= refusing,
        out.is_final(),
        before[at].filter.admits(msg, out),
        forall|j: int| refusing < j < before.len() ==> after[j] == before[j],
{
    if at > refusing {
        assert(may_accept(before, refusing, msg));
    }
}

/// A name that is not registered is reported by name: where `bad` is the
/// first position of `names` that holds an unregistered name, and `bind`
/// refuses nothing, the fault that stops the building of the pipeline is
/// that name's not being registered.
pub proof fn lemma_unregistered_name_is_reported<B: Fn(&String) -> Result<Stage, String>>(
    registered: Seq<String>,
    names: Seq<String>,
    bind: B,
    at: int,
    found: ConfigError,
    bad: int,
)
    requires
        faults_at(registered, names, bind, at, found),
        0 <= bad < names.len(),
        !lists(registered, names[bad]@),
        forall|j: int| 0 <= j < bad ==> lists(registered, (#[trigger] names[j])@),
        forall|name: &String, why: String| !#[trigger] bind.ensures((name,), Err(why)),
    ensures
        at == bad,
        found matches ConfigError::NotRegistered { name } && name@ == names[bad]@,
{
}

/// Whether the names `after` are the names `before` and `name`.
pub open spec fn adds_name(before: Seq<String>, after: Seq<String>, name: Seq<char>) -> bool {
    forall|other: Seq<char>| lists(after, other) <==> lists(before, other) || other == name
}

/// Registering a name makes it known and leaves every other name as it was.
pub proof fn lemma_added_name_is_listed(before: Seq<String>, after: Seq<String>, name: Seq<char>)
    requires
        adds_name(before, after, name),
    ensures
        lists(after, name),
        forall|other: Seq<char>| other != name ==> (lists(after, other) <==> lists(before, other)),
{
}

/// Registering a name a second time changes nothing more: the names that are
/// known after the second time are those known after the first.
pub proof fn lemma_adding_again_changes_nothing(
    before: Seq<String>,
    once: Seq<String>,
    twice: Seq<String>,
    name: Seq<char>,
)
    requires
        adds_name(before, once, name),
        adds_name(once, twice, name),
    ensures
        forall|other: Seq<char>| lists(twice, other) <==> lists(once, other),
{
}

/// The engine: the filters that can be configured, by name, and the pipeline
/// that is in force.
pub struct Noteguard {
    /// The names under which a filter can be configured.
    pub registered_filters: Vec<String>,
    /// The pipeline in force, in the order in which the filters are asked.
    pub loaded_filters: Vec<Stage>,
}

impl Noteguard {
    /// Whether a filter can be configured under `name`.
    pub open spec fn registers(&self, name: Seq<char>) -> bool {
        lists(self.registered_filters@, name)
    }

    /// An engine with the built-in filters registered and an empty pipeline.
    pub fn new() -> (engine: Self)
        ensures
            engine.loaded_filters@.len() == 0,
            forall|name: Seq<char>|
                engine.registers(name) <==> {
                    ||| name == "ratelimit"@
                    ||| name == "whitelist"@
                    ||| name == "protected_events"@
                    ||| name == "kinds"@
                    ||| name == "forwarder"@
                },
    {
        let mut engine = Noteguard { registered_filters: Vec::new(), loaded_filters: Vec::new() };
        engine.register_builtin_filters();
        engine
    }

    /// Makes a filter configurable under `name`.
    pub fn register(&mut self, name: &str)
        ensures
            final(self).loaded_filters == old(self).loaded_filters,
            adds_name(old(self).registered_filters@, final(self).registered_filters@, name@),
    {
        let owned = name.to_owned();
        if !is_listed(&self.registered_filters, &owned) {
            self.registered_filters.push(owned);
        }
        assert forall|other: Seq<char>|
            lists(self.registered_filters@, other) <==> lists(old(self).registered_filters@, other)
                || other == name@ by {
            lemma_lists_push(old(self).registered_filters@, owned, other);
        }
    }

    /// Makes filters of kind `F` configurable under the name they go by: the
    /// name that the default filter of that kind gives. The names are then
    /// those that were registered before and that one, so a kind that is
    /// registered again changes nothing.
    pub fn register_filter<F: NoteFilter + Default>(&mut self)
        ensures
            final(self).loaded_filters == old(self).loaded_filters,
            exists|sample: F, key: &'static str|
                call_ensures(F::default, (), sample) && #[trigger] call_ensures(
                    F::name,
                    (&sample,),
                    key,
                ) && adds_name(
                    old(self).registered_filters@,
                    final(self).registered_filters@,
                    key@,
                ),
    {
        let sample = F::default();
        let name = sample.name();
        self.register(name);
    }

    /// Registers every filter that ships with the engine.
    fn register_builtin_filters(&mut self)
        ensures
            final(self).loaded_filters == old(self).loaded_filters,
            forall|name: Seq<char>|
                final(self).registers(name) <==> {
                    ||| old(self).registers(name)
                    ||| name == "ratelimit"@
                    ||| name == "whitelist"@
                    ||| name == "protected_events"@
                    ||| name == "kinds"@
                    ||| name == "forwarder"@
                },
    {
        self.register_filter::<RateLimit>();
        self.register_filter::<Whitelist>();
        self.register_filter::<ProtectedEvents>();
        self.register_filter::<Kinds>();
        self.register_filter::<Forwarder>();
    }

    /// Whether a filter can be configured under `name`.
    pub fn is_registered(&self, name: &String) -> (known: bool)
        ensures
            known == self.registers(name@),
    {
        is_listed(&self.registered_filters, name)
    }

    /// Runs `input` through the pipeline and gives the verdict.
    ///
    /// The filters are asked in order. The first verdict that is not an
    /// acceptance is returned as it is, and no later filter is asked. If all
    /// accept, the last acceptance is returned; with no filter at all, an
    /// acceptance without reason.
    pub fn run(&mut self, input: InputMessage) -> (out: OutputMessage)
        ensures
            final(self).registered_filters == old(self).registered_filters,
            exists|at: int|
                ends_at(
                    old(self).loaded_filters@,
                    final(self).loaded_filters@,
                    &input,
                    out@,
                    at,
                ),
            old(self).loaded_filters@.len() == 0 ==> out@ == Verdict::accept(input.event.id@),
    {
        let mut mout: Option<OutputMessage> = None;
        let mut i: usize = 0;
        while i < self.loaded_filters.len()
            invariant
                i <= self.loaded_filters@.len(),
                self.loaded_filters@.len() == old(self).loaded_filters@.len(),
                self.registered_filters == old(self).registered_filters,
                passes(old(self).loaded_filters@, &input, i as int),
                forall|j: int|
                    i <= j < self.loaded_filters@.len() ==> self.loaded_filters@[j] == old(
                        self,
                    ).loaded_filters@[j],
                i == 0 ==> mout is None,
                i > 0 ==> mout is Some && !mout.unwrap()@.is_final() && old(
                    self,
                ).loaded_filters@[i - 1].filter.admits(&input, mout.unwrap()@),
            decreases self.loaded_filters.len() - i,
        {
            let out = self.loaded_filters[i].filter.filter_note(&input);
            match out.action {
                Action::Accept => {
                    mout = Some(out);
                },
                Action::Reject => {
                    assert(ends_at(
                        old(self).loaded_filters@,
                        self.loaded_filters@,
                        &input,
                        out@,
                        i as int,
                    ));
                    return out;
                },
                Action::ShadowReject => {
                    assert(ends_at(
                        old(self).loaded_filters@,
                        self.loaded_filters@,
                        &input,
                        out@,
                        i as int,
                    ));
                    return out;
                },
            }
            i = i + 1;
        }
        let out = match mout {
            Some(out) => out,
            None => OutputMessage::new(input.event.id.clone(), Action::Accept, None),
        };
        assert(ends_at(old(self).loaded_filters@, self.loaded_filters@, &input, out@, i as int));
        out
    }

    /// Answers one request: a request that is not a new submission is
    /// rejected without entering the pipeline, any other is run through it.
    pub fn handle(&mut self, input: InputMessage) -> (out: OutputMessage)
        ensures
            final(self).registered_filters == old(self).registered_filters,
            input.message_type@ != NEW_SUBMISSION@ ==> {
                &&& out@ == Verdict::reject(input.event.id@, INVALID_INPUT@)
                &&& final(self).loaded_filters == old(self).loaded_filters
            },
            input.message_type@ == NEW_SUBMISSION@ ==> exists|at: int|
                ends_at(
                    old(self).loaded_filters@,
                    final(self).loaded_filters@,
                    &input,
                    out@,
                    at,
                ),
    {
        let expected = NEW_SUBMISSION.to_owned();
        if input.message_type == expected {
            self.run(input)
        } else {
            OutputMessage::new(
                input.event.id.clone(),
                Action::Reject,
                Some(INVALID_INPUT.to_owned()),
            )
        }
    }

    /// Builds the pipeline that `pipeline` names, in that order, and puts it
    /// in force in place of the present one.
    ///
    /// Each name must be registered; `bind` is then asked for the filter that
    /// the configuration under that name describes. The first name that is
    /// not registered, or that `bind` refuses, ends the attempt with an error
    /// that carries the name, and the pipeline in force stays as it was: a
    /// pipeline is replaced as a whole or not at all.
    pub fn load_config<B: Fn(&String) -> Result<Stage, String>>(
        &mut self,
        pipeline: &Vec<String>,
        bind: B,
    ) -> (loaded: Result<(), ConfigError>)
        requires
            forall|name: &String| #[trigger] bind.requires((name,)),
        ensures
            final(self).registered_filters == old(self).registered_filters,
            match loaded {
                Ok(()) => {
                    &&& final(self).loaded_filters@.len() == pipeline@.len()
                    &&& forall|i: int|
                        0 <= i < pipeline@.len() ==> {
                            &&& old(self).registers((#[trigger] pipeline@[i])@)
                            &&& bind.ensures((&pipeline@[i],), Ok(final(self).loaded_filters@[i]))
                        }
                },
                Err(found) => {
                    &&& final(self).loaded_filters == old(self).loaded_filters
                    &&& exists|at: int|
                        faults_at(old(self).registered_filters@, pipeline@, bind, at, found)
                },
            },
    {
        let mut staged: Vec<Stage> = Vec::new();
        let mut i: usize = 0;
        while i < pipeline.len()
            invariant
                i <= pipeline@.len(),
                staged@.len() == i,
                *self == *old(self),
                forall|name: &String| #[trigger] bind.requires((name,)),
                forall|j: int|
                    0 <= j < i ==> {
                        &&& old(self).registers((#[trigger] pipeline@[j])@)
                        &&& bind.ensures((&pipeline@[j],), Ok(staged@[j]))
                    },
                forall|j: int| 0 <= j < i ==> #[trigger] binds_at(pipeline@, bind, j),
            decreases pipeline.len() - i,
        {
            let name = &pipeline[i];
            if !is_listed(&self.registered_filters, name) {
                let found = ConfigError::NotRegistered { name: name.clone() };
                assert(faults_at(old(self).registered_filters@, pipeline@, bind, i as int, found));
                return Err(found);
            }
            match bind(name) {
                Ok(stage) => {
                    staged.push(stage);
                },
                Err(reason) => {
                    let found = ConfigError::Invalid { name: name.clone(), reason };
                    assert(faults_at(
                        old(self).registered_filters@,
                        pipeline@,
                        bind,
                        i as int,
                        found,
                    ));
                    return Err(found);
                },
            }
            i = i + 1;
        }
        self.loaded_filters = staged;
        Ok(())
    }
}

} // verus!
