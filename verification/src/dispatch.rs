//! The binding of handlers to entry points, and what an entry point does.
//!
//! The host calls one exported function for each kind of event and each
//! tier. A handler is bound to exactly one of them; when the host calls, the
//! decoded event goes to the handler, and the state in which the handler
//! leaves it becomes the code that the host gets back.

use crate::error::DecodeFailure;
use crate::events::{Event, Events};
use crate::table::{
    arguments, arguments_of, base_name, event_kind, export_base, kind_named,
    lemma_export_bases_differ, reads, signature, Argument, ArgumentRecord, NativeType,
};
use vstd::prelude::*;
use vstd::string::StringExecFns;

verus! {

/// The tiers in which the host calls the handlers of one event: high first,
/// low last.
#[derive(Clone, Copy, Debug, PartialEq, Eq, Structural)]
pub enum Priority {
    High,
    Medium,
    Low,
}

/// The word that stands for `tier` in a registration and in an entry point's name.
pub open spec fn tier_name(tier: Priority) -> Seq<char> {
    match tier {
        Priority::High => "high"@,
        Priority::Medium => "medium"@,
        Priority::Low => "low"@,
    }
}

/// The name of the entry point that the host calls for `kind` in `tier`.
pub open spec fn export_name(kind: Events, tier: Priority) -> Seq<char> {
    export_base(kind) + "_"@ + tier_name(tier)
}

/// The tier that the word `name` stands for, if it stands for one.
pub open spec fn tier_named(name: Seq<char>) -> Option<Priority> {
    if exists|tier: Priority| tier_name(tier) == name {
        Some(choose|tier: Priority| tier_name(tier) == name)
    } else {
        None
    }
}

/// How long the word of each tier is, and its last letter.
proof fn lemma_tier_name_marks()
    ensures
        tier_name(Priority::High).len() == 4,
        tier_name(Priority::High)[3] == 'h',
        tier_name(Priority::Medium).len() == 6,
        tier_name(Priority::Medium)[5] == 'm',
        tier_name(Priority::Low).len() == 3,
        tier_name(Priority::Low)[2] == 'w',
        "_"@.len() == 1,
{
    reveal_strlit("high");
    reveal_strlit("medium");
    reveal_strlit("low");
    reveal_strlit("_");
}

/// No two tiers share a word.
pub proof fn lemma_tier_names_differ(a: Priority, b: Priority)
    ensures
        tier_name(a) == tier_name(b) ==> a == b,
{
    lemma_tier_name_marks();
}

/// The word of a tier leads back to that tier.
pub proof fn lemma_tier_of_tier_name(tier: Priority)
    ensures
        tier_named(tier_name(tier)) == Some(tier),
{
    let found = choose|t: Priority| tier_name(t) == tier_name(tier);
    lemma_tier_names_differ(found, tier);
}

/// Every pair of kind and tier has an entry point to itself: two of them
/// never carry the same name.
pub proof fn lemma_export_names_differ(k1: Events, t1: Priority, k2: Events, t2: Priority)
    ensures
        export_name(k1, t1) == export_name(k2, t2) ==> k1 == k2 && t1 == t2,
{
    if export_name(k1, t1) == export_name(k2, t2) {
        lemma_tier_name_marks();
        let n1 = export_name(k1, t1);
        let n2 = export_name(k2, t2);
        assert(n1.last() == tier_name(t1).last());
        assert(n2.last() == tier_name(t2).last());
        assert(t1 == t2);
        let b1 = export_base(k1);
        let b2 = export_base(k2);
        assert(n1.subrange(0, b1.len() as int) =~= b1);
        assert(n2.subrange(0, b2.len() as int) =~= b2);
        lemma_export_bases_differ(k1, k2);
    }
}

impl Priority {
    /// The word that stands for the tier.
    pub fn name(self) -> (name: &'static str)
        ensures
            name@ == tier_name(self),
    {
        match self {
            Priority::High => "high",
            Priority::Medium => "medium",
            Priority::Low => "low",
        }
    }

    /// The tier that `name` stands for: `high`, `medium` or `low`.
    pub fn from_name(name: &str) -> (r: Option<Priority>)
        ensures
            r == tier_named(name@),
    {
        let text = String::from_str(name);
        let r = if reads(&text, "high") {
            Some(Priority::High)
        } else if reads(&text, "medium") {
            Some(Priority::Medium)
        } else if reads(&text, "low") {
            Some(Priority::Low)
        } else {
            None
        };
        proof {
            match r {
                Some(tier) => {
                    lemma_tier_of_tier_name(tier);
                },
                None => {
                    assert forall|tier: Priority| tier_name(tier) != name@ by {}
                },
            }
        }
        r
    }
}

/// The name of the entry point that the host calls for `kind` in `tier`.
pub fn entry_point(kind: Events, tier: Priority) -> (name: String)
    ensures
        name@ == export_name(kind, tier),
{
    String::from_str(base_name(kind)).concat("_").concat(tier.name())
}

/// One parameter of a handler, as far as binding looks at it.
#[derive(Debug, Clone, PartialEq, Eq)]
pub enum Parameter {
    /// A mutable reference to the type of this name.
    MutableRef(String),
    /// A shared reference to the type of this name.
    SharedRef(String),
    /// Anything else.
    Other,
}

/// The parameters of a handler, and whether it returns a value.
#[derive(Debug, Clone, PartialEq, Eq)]
pub struct HandlerSignature {
    pub params: Vec<Parameter>,
    pub returns_value: bool,
}

/// Why a handler cannot be bound.
#[derive(Clone, Copy, Debug, PartialEq, Eq, Structural)]
pub enum BindError {
    /// The handler does not take exactly one mutable reference to an event
    /// and return nothing.
    MalformedHandler,
    /// The handler's parameter names no event type of the table.
    UnknownEventType,
    /// The priority is none of `high`, `medium` and `low`.
    UnknownPriority,
}

/// The name of the event type that a handler listens to: the type behind
/// its only parameter, a mutable reference. A handler of any other shape, or
/// one that returns a value, listens to nothing.
pub open spec fn listened_type(handler: HandlerSignature) -> Option<Seq<char>> {
    if handler.params@.len() == 1 && !handler.returns_value {
        match handler.params@[0] {
            Parameter::MutableRef(name) => Some(name@),
            _ => None,
        }
    } else {
        None
    }
}

/// Whether a function can be the startup handler: it takes nothing and
/// returns nothing.
pub open spec fn startup_shape(handler: HandlerSignature) -> bool {
    handler.params@.len() == 0 && !handler.returns_value
}

/// Checks that `handler` can be the startup handler.
pub fn check_startup_handler(handler: &HandlerSignature) -> (r: Result<(), BindError>)
    ensures
        r is Ok <==> startup_shape(*handler),
        r is Err ==> r == Err::<(), BindError>(BindError::MalformedHandler),
{
    if handler.params.len() == 0 && !handler.returns_value {
        Ok(())
    } else {
        Err(BindError::MalformedHandler)
    }
}

/// What a binding holds.
pub struct BindingRecord {
    pub kind: Events,
    pub tier: Priority,
    pub export_name: Seq<char>,
    pub args: Seq<ArgumentRecord>,
    pub result: NativeType,
}

/// The entry point that belongs to `kind` in `tier`.
pub open spec fn bound(kind: Events, tier: Priority) -> BindingRecord {
    BindingRecord {
        kind,
        tier,
        export_name: export_name(kind, tier),
        args: signature(kind),
        result: NativeType::Int32,
    }
}

/// A handler's place in the table: the entry point that will call it.
#[derive(Debug, Clone, PartialEq, Eq)]
pub struct Binding {
    pub kind: Events,
    pub tier: Priority,
    pub export_name: String,
    pub args: Vec<Argument>,
    pub result: NativeType,
}

impl View for Binding {
    type V = BindingRecord;

    open spec fn view(&self) -> BindingRecord {
        BindingRecord {
            kind: self.kind,
            tier: self.tier,
            export_name: self.export_name@,
            args: arguments_of(self.args@),
            result: self.result,
        }
    }
}

/// The characters of a priority, where one was given.
pub open spec fn priority_text(priority: Option<&str>) -> Option<Seq<char>> {
    match priority {
        Some(word) => Some(word@),
        None => None,
    }
}

/// The record of a binding that was made, or the error that came instead.
pub open spec fn binding_of(r: Result<Binding, BindError>) -> Result<BindingRecord, BindError> {
    match r {
        Ok(binding) => Ok(binding@),
        Err(e) => Err(e),
    }
}

/// Where a handler is bound. Its shape is checked first, then the event type
/// it names, then the priority. Without a priority it goes to the medium tier.
pub open spec fn binding(handler: HandlerSignature, priority: Option<Seq<char>>) -> Result<
    BindingRecord,
    BindError,
> {
    match listened_type(handler) {
        None => Err(BindError::MalformedHandler),
        Some(event) => match kind_named(event) {
            None => Err(BindError::UnknownEventType),
            Some(kind) => match priority {
                None => Ok(bound(kind, Priority::Medium)),
                Some(word) => match tier_named(word) {
                    None => Err(BindError::UnknownPriority),
                    Some(tier) => Ok(bound(kind, tier)),
                },
            },
        },
    }
}

/// Binds `handler` to the entry point of the event type it names, in the
/// tier that `priority` names, or in the medium tier where none is given.
pub fn listener(handler: &HandlerSignature, priority: Option<&str>) -> (r: Result<
    Binding,
    BindError,
>)
    ensures
        binding_of(r) == binding(*handler, priority_text(priority)),
{
    if handler.params.len() != 1 || handler.returns_value {
        return Err(BindError::MalformedHandler);
    }
    let kind = match &handler.params[0] {
        Parameter::MutableRef(name) => match event_kind(name.as_str()) {
            Some(kind) => kind,
            None => {
                return Err(BindError::UnknownEventType);
            },
        },
        _ => {
            return Err(BindError::MalformedHandler);
        },
    };
    let tier = match priority {
        None => Priority::Medium,
        Some(word) => match Priority::from_name(word) {
            Some(tier) => tier,
            None => {
                return Err(BindError::UnknownPriority);
            },
        },
    };
    Ok(
        Binding {
            kind,
            tier,
            export_name: entry_point(kind, tier),
            args: arguments(kind),
            result: NativeType::Int32,
        },
    )
}

/// The code that tells the host to go on with the event.
pub const EVENT_IGNORE: i32 = 0;

/// The code that tells the host that the event has been dealt with.
pub const EVENT_BLOCK: i32 = 1;

/// The code that an entry point returns for an event that a handler left
/// cancelled or not.
pub open spec fn result_code(cancelled: bool) -> i32 {
    if cancelled {
        EVENT_BLOCK
    } else {
        EVENT_IGNORE
    }
}

/// How the call of a handler ended.
#[derive(Debug)]
pub enum Outcome<E> {
    /// The handler returned and left the event in this state.
    Returned(E),
    /// The handler broke off before it returned.
    Faulted,
}

/// The code that an entry point returns once the call of its handler has
/// ended: that of the event as the handler left it, or, where the handler
/// broke off, the code that tells the host to go on.
pub open spec fn outcome_code<E: Event>(outcome: Outcome<E>) -> i32 {
    match outcome {
        Outcome::Returned(event) => result_code(event.cancelled()),
        Outcome::Faulted => EVENT_IGNORE,
    }
}

/// The code that an entry point returns for `event` once its handler is done.
pub fn conclude<E: Event>(event: &E) -> (code: i32)
    ensures
        code == result_code(event.cancelled()),
{
    if event.is_cancel() {
        EVENT_BLOCK
    } else {
        EVENT_IGNORE
    }
}

/// What an entry point does with the arguments once they are decoded. An
/// event goes to `handler`, once, and the state in which the handler leaves
/// it decides the code. A decoding failure never reaches the handler, and a
/// handler that breaks off has dealt with nothing: either way the host is
/// told to go on.
pub fn deliver<E: Event, H: FnOnce(E) -> Outcome<E>>(
    decoded: Result<E, DecodeFailure>,
    handler: H,
) -> (code: i32)
    requires
        decoded matches Ok(event) ==> handler.requires((event,)),
    ensures
        match decoded {
            Ok(event) => exists|outcome: Outcome<E>|
                handler.ensures((event,), outcome) && code == outcome_code(outcome),
            Err(_) => code == EVENT_IGNORE,
        },
{
    match decoded {
        Ok(event) => {
            let outcome = handler(event);
            let code = match &outcome {
                Outcome::Returned(after) => conclude(after),
                Outcome::Faulted => EVENT_IGNORE,
            };
            assert(handler.ensures((event,), outcome) && code == outcome_code(outcome));
            code
        },
        Err(_) => EVENT_IGNORE,
    }
}

/// The text by which the plugin introduces itself to the host: the version
/// of the interface, a comma, and the plugin's identifier.
pub fn app_info(api_version: &str, app_id: &str) -> (info: String)
    ensures
        info@ == api_version@ + ","@ + app_id@,
{
    String::from_str(api_version).concat(",").concat(app_id)
}

} // verus!
