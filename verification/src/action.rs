//! The actions a device can be asked to take, and the registry that gives
//! each kind of action a name and a 128-bit identifier.

use crate::error::DeviceError;
use crate::ident::uuid_of;
use crate::text::{lemma_lowercase_of_lower_letters, lowercase, to_lowercase};
use uuid::Uuid;
use vstd::prelude::*;

verus! {

/// The identifier of `Action::On`.
pub const ON_ID: u128 = 0x928e9b929939486b998d69613f89a9a6;

/// The identifier of `Action::Off`.
pub const OFF_ID: u128 = 0x13df417d74d2443b87e3de60557b75b8;

/// The identifier of `Action::Up`.
pub const UP_ID: u128 = 0xbc6c6eeba0ba40e0a57ff5186d4350ce;

/// The identifier of `Action::Down`.
pub const DOWN_ID: u128 = 0x62865402c86245eea282d4f2ca8fd51b;

/// The identifier of `Action::Min`.
pub const MIN_ID: u128 = 0x4aad1b26ea9b455190d0d917102b7f36;

/// The identifier of `Action::Max`.
pub const MAX_ID: u128 = 0x4ffb631fa4ba4fb5a189f7a3bb9dfa01;

/// The identifier of `Action::Reverse`.
pub const REVERSE_ID: u128 = 0x1a8a1df0523e4acb8390b872329a9ca7;

/// The identifier of `Action::SetAbsolute`.
pub const SET_ID: u128 = 0x2a4fae8107134e1fa8187ac56e4f13e4;

/// What a device can be asked to do.
///
/// `Up` and `Down` may carry the number of steps to move, `SetAbsolute`
/// carries the index to move to. Two actions are of the same kind when they
/// are the same variant, whatever they carry.
#[derive(Debug, Copy, Clone, PartialEq, Eq, Hash, Structural)]
pub enum Action {
    On,
    Off,
    Up(Option<usize>),
    Down(Option<usize>),
    Min,
    Max,
    Reverse,
    SetAbsolute(usize),
}

/// One row of the registry: a kind of action, by its representative, with
/// its name and its identifier.
#[derive(Debug)]
pub struct ActionSynonyms {
    pub action: Action,
    pub text: &'static str,
    pub uuid_number: u128,
}

/// The representatives of all kinds, in the order of the registry.
pub open spec fn registry() -> Seq<Action> {
    seq![
        Action::On,
        Action::Off,
        Action::Up(None),
        Action::Down(None),
        Action::Min,
        Action::Max,
        Action::Reverse,
        Action::SetAbsolute(0),
    ]
}

/// Whether `table` is the registry: row `i` holds the `i`-th representative
/// with the name and the identifier of its kind.
pub open spec fn is_registry(table: Seq<ActionSynonyms>) -> bool {
    &&& table.len() == 8
    &&& forall|i: int|
        #![trigger table[i]]
        0 <= i < 8 ==> {
            &&& table[i].action == registry()[i]
            &&& table[i].text@ == registry()[i].name()
            &&& table[i].uuid_number == registry()[i].number()
        }
}

/// The registry of actions.
pub fn action_synonyms() -> (table: [ActionSynonyms; 8])
    ensures
        is_registry(table@),
{
    [
        ActionSynonyms { action: Action::On, text: "on", uuid_number: ON_ID },
        ActionSynonyms { action: Action::Off, text: "off", uuid_number: OFF_ID },
        ActionSynonyms { action: Action::Up(None), text: "up", uuid_number: UP_ID },
        ActionSynonyms { action: Action::Down(None), text: "down", uuid_number: DOWN_ID },
        ActionSynonyms { action: Action::Min, text: "minimum", uuid_number: MIN_ID },
        ActionSynonyms { action: Action::Max, text: "maximum", uuid_number: MAX_ID },
        ActionSynonyms { action: Action::Reverse, text: "reverse", uuid_number: REVERSE_ID },
        ActionSynonyms { action: Action::SetAbsolute(0), text: "set", uuid_number: SET_ID },
    ]
}

impl Action {
    /// The action of the same kind that stands for it in the registry and in
    /// a device's list of available actions: `Up` and `Down` without a step,
    /// `SetAbsolute` with index 0.
    pub open spec fn representative(self) -> Action {
        match self {
            Action::Up(_) => Action::Up(None),
            Action::Down(_) => Action::Down(None),
            Action::SetAbsolute(_) => Action::SetAbsolute(0),
            _ => self,
        }
    }

    /// Whether two actions are the same variant.
    pub open spec fn same_kind(self, other: Action) -> bool {
        self.representative() == other.representative()
    }

    /// The registered name of the action's kind.
    pub open spec fn name(self) -> Seq<char> {
        match self {
            Action::On => "on"@,
            Action::Off => "off"@,
            Action::Up(_) => "up"@,
            Action::Down(_) => "down"@,
            Action::Min => "minimum"@,
            Action::Max => "maximum"@,
            Action::Reverse => "reverse"@,
            Action::SetAbsolute(_) => "set"@,
        }
    }

    /// The registered identifier of the action's kind, as a number.
    pub open spec fn number(self) -> u128 {
        match self {
            Action::On => ON_ID,
            Action::Off => OFF_ID,
            Action::Up(_) => UP_ID,
            Action::Down(_) => DOWN_ID,
            Action::Min => MIN_ID,
            Action::Max => MAX_ID,
            Action::Reverse => REVERSE_ID,
            Action::SetAbsolute(_) => SET_ID,
        }
    }

    /// Whether the action is of a kind that carries no number.
    pub open spec fn carries_nothing(self) -> bool {
        !(self is Up || self is Down || self is SetAbsolute)
    }

    /// The number that the action carries, if any.
    pub open spec fn value(self) -> Option<usize> {
        match self {
            Action::Up(step) => step,
            Action::Down(step) => step,
            Action::SetAbsolute(index) => Some(index),
            _ => None,
        }
    }

    /// The action that a lower-case name and an optional argument stand for.
    ///
    /// `up` and `down` take the argument as their step; `set` needs the
    /// argument as its index; every other registered name stands for its
    /// kind's representative and ignores the argument.
    pub open spec fn resolve_name(text: Seq<char>, argument: Option<usize>) -> Result<
        Action,
        DeviceError,
    > {
        if text == "up"@ {
            Ok(Action::Up(argument))
        } else if text == "down"@ {
            Ok(Action::Down(argument))
        } else if text == "set"@ {
            match argument {
                Some(index) => Ok(Action::SetAbsolute(index)),
                None => Err(DeviceError::MissingArgument),
            }
        } else if text == "on"@ {
            Ok(Action::On)
        } else if text == "off"@ {
            Ok(Action::Off)
        } else if text == "minimum"@ {
            Ok(Action::Min)
        } else if text == "maximum"@ {
            Ok(Action::Max)
        } else if text == "reverse"@ {
            Ok(Action::Reverse)
        } else {
            Err(DeviceError::NotFound)
        }
    }

    /// The representative of the kind registered under an identifier, if
    /// there is one.
    pub open spec fn kind_of_number(number: u128) -> Option<Action> {
        if number == ON_ID {
            Some(Action::On)
        } else if number == OFF_ID {
            Some(Action::Off)
        } else if number == UP_ID {
            Some(Action::Up(None))
        } else if number == DOWN_ID {
            Some(Action::Down(None))
        } else if number == MIN_ID {
            Some(Action::Min)
        } else if number == MAX_ID {
            Some(Action::Max)
        } else if number == REVERSE_ID {
            Some(Action::Reverse)
        } else if number == SET_ID {
            Some(Action::SetAbsolute(0))
        } else {
            None
        }
    }

    /// The action that an identifier and an optional argument stand for: the
    /// one that the name registered under the identifier stands for.
    pub open spec fn resolve_number(number: u128, argument: Option<usize>) -> Result<
        Action,
        DeviceError,
    > {
        match Action::kind_of_number(number) {
            Some(kind) => Action::resolve_name(kind.name(), argument),
            None => Err(DeviceError::NotFound),
        }
    }

    /// Whether `self` and `other` are the same variant, whatever they carry.
    pub fn same_variant(&self, other: &Self) -> (same: bool)
        ensures
            same == self.same_kind(*other),
    {
        match (*self, *other) {
            (Action::On, Action::On) => true,
            (Action::Off, Action::Off) => true,
            (Action::Up(_), Action::Up(_)) => true,
            (Action::Down(_), Action::Down(_)) => true,
            (Action::Min, Action::Min) => true,
            (Action::Max, Action::Max) => true,
            (Action::Reverse, Action::Reverse) => true,
            (Action::SetAbsolute(_), Action::SetAbsolute(_)) => true,
            _ => false,
        }
    }

    /// The action that a name in lower case and an optional argument stand
    /// for.
    pub fn from_lowercase(text: &str, target: Option<usize>) -> (found: Result<Action, DeviceError>)
        ensures
            found == Action::resolve_name(text@, target),
    {
        if text.eq("up") {
            return Ok(Action::Up(target));
        }
        if text.eq("down") {
            return Ok(Action::Down(target));
        }
        if text.eq("set") {
            return match target {
                Some(index) => Ok(Action::SetAbsolute(index)),
                None => Err(DeviceError::MissingArgument),
            };
        }
        let table = action_synonyms();
        let mut i: usize = 0;
        while i < 8
            invariant
                i <= 8,
                is_registry(table@),
                text@ != "up"@,
                text@ != "down"@,
                text@ != "set"@,
                forall|j: int| 0 <= j < i ==> text@ != (#[trigger] registry()[j]).name(),
            decreases 8 - i,
        {
            if table[i].text.eq(text) {
                proof {
                    lemma_name_resolves(registry()[i as int], target);
                }
                return Ok(table[i].action);
            }
            i += 1;
        }
        proof {
            assert(text@ != registry()[0].name());
            assert(text@ != registry()[1].name());
            assert(text@ != registry()[4].name());
            assert(text@ != registry()[5].name());
            assert(text@ != registry()[6].name());
        }
        Err(DeviceError::NotFound)
    }

    /// The action that a name, in any mix of upper and lower case, and an
    /// optional argument stand for: the name is brought to lower case and
    /// then resolved as `from_lowercase` does.
    pub fn from_str(s: &str, target: Option<usize>) -> (found: Result<Action, DeviceError>)
        ensures
            found == Action::resolve_name(lowercase(s@), target),
    {
        let lowered = to_lowercase(s);
        Action::from_lowercase(lowered.as_str(), target)
    }

    /// The action that an identifier and an optional argument stand for: the
    /// one that `from_str` finds under the name registered with the
    /// identifier.
    pub fn from_u128(uuid_number: u128, target: Option<usize>) -> (found: Result<
        Action,
        DeviceError,
    >)
        ensures
            found == Action::resolve_number(uuid_number, target),
    {
        let table = action_synonyms();
        let mut i: usize = 0;
        while i < 8
            invariant
                i <= 8,
                is_registry(table@),
                forall|j: int| 0 <= j < i ==> uuid_number != (#[trigger] registry()[j]).number(),
            decreases 8 - i,
        {
            if table[i].uuid_number == uuid_number {
                proof {
                    let kind = registry()[i as int];
                    assert(Action::kind_of_number(uuid_number) == Some(kind));
                    lemma_name_is_lowercase(kind);
                }
                return Action::from_str(table[i].text, target);
            }
            i += 1;
        }
        proof {
            assert(uuid_number != registry()[0].number());
            assert(uuid_number != registry()[1].number());
            assert(uuid_number != registry()[2].number());
            assert(uuid_number != registry()[3].number());
            assert(uuid_number != registry()[4].number());
            assert(uuid_number != registry()[5].number());
            assert(uuid_number != registry()[6].number());
            assert(uuid_number != registry()[7].number());
        }
        Err(DeviceError::NotFound)
    }

    /// The registered name of the action's kind.
    pub fn to_str(&self) -> (text: &'static str)
        ensures
            text@ == self.name(),
    {
        let table = action_synonyms();
        let mut i: usize = 0;
        while i < 8
            invariant
                i <= 8,
                is_registry(table@),
                forall|j: int| 0 <= j < i ==> !self.same_kind(#[trigger] registry()[j]),
            decreases 8 - i,
        {
            if self.same_variant(&table[i].action) {
                return table[i].text;
            }
            i += 1;
        }
        proof {
            lemma_every_kind_registered(*self);
        }
        ""
    }

    /// The registered identifier of the action's kind.
    pub fn to_uuid(&self) -> (id: Uuid)
        ensures
            id == uuid_of(self.number()),
    {
        let table = action_synonyms();
        let mut i: usize = 0;
        while i < 8
            invariant
                i <= 8,
                is_registry(table@),
                forall|j: int| 0 <= j < i ==> !self.same_kind(#[trigger] registry()[j]),
            decreases 8 - i,
        {
            if self.same_variant(&table[i].action) {
                return Uuid::from_u128(table[i].uuid_number);
            }
            i += 1;
        }
        proof {
            lemma_every_kind_registered(*self);
        }
        Uuid::from_u128(0x0)
    }

    /// The number that the action carries: the step of `Up` and `Down`, the
    /// index of `SetAbsolute`.
    pub fn get_value(&self) -> (value: Option<usize>)
        ensures
            value == self.value(),
    {
        match self {
            Action::Up(v) => *v,
            Action::Down(v) => *v,
            Action::SetAbsolute(v) => Some(*v),
            _ => None,
        }
    }
}

/// The registry holds each kind exactly once: every action has the same kind
/// as one row, and as no other.
pub proof fn lemma_every_kind_registered(action: Action)
    ensures
        exists|i: int| 0 <= i < 8 && action.same_kind(#[trigger] registry()[i]),
        forall|i: int, j: int|
            0 <= i < 8 && 0 <= j < 8 && action.same_kind(#[trigger] registry()[i])
                && action.same_kind(#[trigger] registry()[j]) ==> i == j,
        forall|i: int| 0 <= i < 8 ==> (#[trigger] registry()[i]).representative() == registry()[i],
{
    let at: int = match action {
        Action::On => 0,
        Action::Off => 1,
        Action::Up(_) => 2,
        Action::Down(_) => 3,
        Action::Min => 4,
        Action::Max => 5,
        Action::Reverse => 6,
        Action::SetAbsolute(_) => 7,
    };
    assert(action.same_kind(registry()[at]));
}

/// A registered name is made of the letters `a` to `z`, so lower-casing
/// leaves it as it is.
pub proof fn lemma_name_is_lowercase(action: Action)
    ensures
        lowercase(action.name()) == action.name(),
{
    reveal_strlit("on");
    reveal_strlit("off");
    reveal_strlit("up");
    reveal_strlit("down");
    reveal_strlit("minimum");
    reveal_strlit("maximum");
    reveal_strlit("reverse");
    reveal_strlit("set");
    lemma_lowercase_of_lower_letters(action.name());
}

/// Names are unique in the registry: actions of different kinds have
/// different names.
pub proof fn lemma_names_differ(a: Action, b: Action)
    ensures
        a.name() == b.name() <==> a.same_kind(b),
{
    reveal_strlit("on");
    reveal_strlit("off");
    reveal_strlit("up");
    reveal_strlit("down");
    reveal_strlit("minimum");
    reveal_strlit("maximum");
    reveal_strlit("reverse");
    reveal_strlit("set");
    if !a.same_kind(b) {
        let x = a.name();
        let y = b.name();
        assert(x.len() != y.len() || x[0] != y[0] || x[1] != y[1]);
    }
}

/// Identifiers are unique in the registry: actions of different kinds have
/// different identifiers.
pub proof fn lemma_numbers_differ(a: Action, b: Action)
    ensures
        a.number() == b.number() <==> a.same_kind(b),
{
}

/// Resolving the registered name of an action finds an action of the same
/// kind: with the argument as its step for `Up` and `Down`, with the argument
/// as its index for `SetAbsolute`, and the action itself for the kinds that
/// carry nothing. A `SetAbsolute` without an argument is not resolved.
pub proof fn lemma_name_resolves(action: Action, argument: Option<usize>)
    ensures
        Action::resolve_name(action.name(), argument) == match action {
            Action::Up(_) => Ok::<Action, DeviceError>(Action::Up(argument)),
            Action::Down(_) => Ok(Action::Down(argument)),
            Action::SetAbsolute(_) => match argument {
                Some(index) => Ok(Action::SetAbsolute(index)),
                None => Err(DeviceError::MissingArgument),
            },
            _ => Ok(action),
        },
{
    lemma_names_differ(action, Action::Up(None));
    lemma_names_differ(action, Action::Down(None));
    lemma_names_differ(action, Action::SetAbsolute(0));
    lemma_names_differ(action, Action::On);
    lemma_names_differ(action, Action::Off);
    lemma_names_differ(action, Action::Min);
    lemma_names_differ(action, Action::Max);
    lemma_names_differ(action, Action::Reverse);
}

/// Round trip by name: the name that `to_str` gives for an action is resolved
/// by `from_str` to an action of the same kind, whatever the argument, unless
/// the action is a `SetAbsolute` and the argument is missing. It is the
/// action itself if its kind carries no number or the argument is the number
/// it carries.
pub proof fn lemma_round_trip_by_name(action: Action, argument: Option<usize>)
    requires
        !(action is SetAbsolute && argument is None),
    ensures
        Action::resolve_name(lowercase(action.name()), argument) is Ok,
        Action::resolve_name(lowercase(action.name()), argument)->Ok_0.same_kind(action),
        action.carries_nothing() || action.value() == argument ==> Action::resolve_name(
            lowercase(action.name()),
            argument,
        ) == Ok::<Action, DeviceError>(action),
{
    lemma_name_is_lowercase(action);
    lemma_name_resolves(action, argument);
}

/// Round trip by identifier: the number that the identifier of `to_uuid` is
/// made of is resolved by `from_u128` to an action of the same kind, whatever
/// the argument, unless the action is a `SetAbsolute` and the argument is
/// missing. It is the action itself if its kind carries no number or the
/// argument is the number it carries.
pub proof fn lemma_round_trip_by_number(action: Action, argument: Option<usize>)
    requires
        !(action is SetAbsolute && argument is None),
    ensures
        Action::resolve_number(action.number(), argument) is Ok,
        Action::resolve_number(action.number(), argument)->Ok_0.same_kind(action),
        action.carries_nothing() || action.value() == argument ==> Action::resolve_number(
            action.number(),
            argument,
        ) == Ok::<Action, DeviceError>(action),
{
    assert(Action::kind_of_number(action.number()) == Some(action.representative()));
    lemma_name_resolves(action.representative(), argument);
}

} // verus!
