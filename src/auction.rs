use vstd::array::spec_array_update;
use vstd::prelude::*;

use crate::cards::{suit_of_index, suit_of_text, Seat, Suit};
use crate::error::GameError;
use crate::text::{is_spelled, spelled, text_eq};

verus! {

/// How many tricks over six a bid promises.
#[derive(Clone, Copy, Debug, PartialEq, Eq, Structural, Hash)]
pub enum Level {
    L1,
    L2,
    L3,
    L4,
    L5,
    L6,
    L7,
}

/// A suit, or no trump.
#[derive(Clone, Copy, Debug, PartialEq, Eq, Structural, Hash)]
pub enum Strain {
    Suit(Suit),
    NoTrump,
}

/// An offer of the auction: a level and a strain.
#[derive(Clone, Copy, Debug, PartialEq, Eq, Structural, Hash)]
pub struct Bid {
    pub level: Level,
    pub strain: Strain,
}

/// The calls of the auction that are not bids.
#[derive(Clone, Copy, Debug, PartialEq, Eq, Structural, Hash)]
pub enum Call {
    Pass,
    Double,
    ReDouble,
}

/// Action id of a pass; a double and a redouble follow it.
pub const PASS_ID: u8 = 35;

pub open spec fn level_of_index(i: int) -> Level {
    if i == 0 {
        Level::L1
    } else if i == 1 {
        Level::L2
    } else if i == 2 {
        Level::L3
    } else if i == 3 {
        Level::L4
    } else if i == 4 {
        Level::L5
    } else if i == 5 {
        Level::L6
    } else {
        Level::L7
    }
}

pub open spec fn level_of_text(t: Seq<char>) -> Option<Level> {
    if t == "1"@ {
        Some(Level::L1)
    } else if t == "2"@ {
        Some(Level::L2)
    } else if t == "3"@ {
        Some(Level::L3)
    } else if t == "4"@ {
        Some(Level::L4)
    } else if t == "5"@ {
        Some(Level::L5)
    } else if t == "6"@ {
        Some(Level::L6)
    } else if t == "7"@ {
        Some(Level::L7)
    } else {
        None
    }
}

pub open spec fn strain_of_text(t: Seq<char>) -> Option<Strain> {
    if spelled(t, "NT", "notrump") {
        Some(Strain::NoTrump)
    } else {
        match suit_of_text(t) {
            Some(suit) => Some(Strain::Suit(suit)),
            None => None,
        }
    }
}

pub open spec fn strain_of_id(i: int) -> Strain {
    if i < 4 {
        Strain::Suit(suit_of_index(i))
    } else {
        Strain::NoTrump
    }
}

pub open spec fn bid_of_id(id: int) -> Bid {
    Bid { level: level_of_index(id / 5), strain: strain_of_id(id % 5) }
}

pub open spec fn call_of_id(id: int) -> Call {
    if id == PASS_ID {
        Call::Pass
    } else if id == PASS_ID + 1 {
        Call::Double
    } else {
        Call::ReDouble
    }
}

pub open spec fn call_of_text(t: Seq<char>) -> Option<Call> {
    if spelled(t, "pass", "Pass") {
        Some(Call::Pass)
    } else if spelled(t, "double", "Double") {
        Some(Call::Double)
    } else if spelled(t, "redouble", "reDouble") {
        Some(Call::ReDouble)
    } else {
        None
    }
}

impl Level {
    pub open spec fn spec_index(self) -> int {
        match self {
            Level::L1 => 0,
            Level::L2 => 1,
            Level::L3 => 2,
            Level::L4 => 3,
            Level::L5 => 4,
            Level::L6 => 5,
            Level::L7 => 6,
        }
    }

    pub fn index(&self) -> (r: u8)
        ensures
            r == self.spec_index(),
            r < 7,
    {
        match self {
            Level::L1 => 0,
            Level::L2 => 1,
            Level::L3 => 2,
            Level::L4 => 3,
            Level::L5 => 4,
            Level::L6 => 5,
            Level::L7 => 6,
        }
    }

    pub fn from_index(i: u8) -> (r: Level)
        requires
            i < 7,
        ensures
            r == level_of_index(i as int),
            r.spec_index() == i,
    {
        if i == 0 {
            Level::L1
        } else if i == 1 {
            Level::L2
        } else if i == 2 {
            Level::L3
        } else if i == 3 {
            Level::L4
        } else if i == 4 {
            Level::L5
        } else if i == 5 {
            Level::L6
        } else {
            Level::L7
        }
    }

    /// Decodes a level from its digit.
    pub fn new(s: &str) -> (r: Result<Level, GameError>)
        ensures
            r is Ok <==> level_of_text(s@) is Some,
            r is Ok ==> level_of_text(s@) == Some(r->Ok_0),
            r is Err ==> r->Err_0 is InvalidRankString && r->Err_0->InvalidRankString_0@ == s@,
    {
        if text_eq(s, "1") {
            Ok(Level::L1)
        } else if text_eq(s, "2") {
            Ok(Level::L2)
        } else if text_eq(s, "3") {
            Ok(Level::L3)
        } else if text_eq(s, "4") {
            Ok(Level::L4)
        } else if text_eq(s, "5") {
            Ok(Level::L5)
        } else if text_eq(s, "6") {
            Ok(Level::L6)
        } else if text_eq(s, "7") {
            Ok(Level::L7)
        } else {
            Err(GameError::InvalidRankString(s.to_owned()))
        }
    }

    /// The level's digit.
    pub fn as_string(&self) -> (r: String)
        ensures
            r@ == level_name(*self)@,
    {
        level_name(*self).to_owned()
    }
}

pub open spec fn level_name_spec(level: Level) -> &'static str {
    match level {
        Level::L1 => "1",
        Level::L2 => "2",
        Level::L3 => "3",
        Level::L4 => "4",
        Level::L5 => "5",
        Level::L6 => "6",
        Level::L7 => "7",
    }
}

#[verifier::when_used_as_spec(level_name_spec)]
pub fn level_name(level: Level) -> (r: &'static str)
    ensures
        r == level_name_spec(level),
{
    match level {
        Level::L1 => "1",
        Level::L2 => "2",
        Level::L3 => "3",
        Level::L4 => "4",
        Level::L5 => "5",
        Level::L6 => "6",
        Level::L7 => "7",
    }
}

impl Strain {
    /// Suits take the ids of their index, no trump the id after them.
    pub open spec fn spec_id(self) -> int {
        match self {
            Strain::Suit(suit) => suit.spec_index(),
            Strain::NoTrump => 4,
        }
    }

    pub fn id(&self) -> (r: usize)
        ensures
            r == self.spec_id(),
            r < 5,
    {
        match self {
            Strain::Suit(suit) => suit.index(),
            Strain::NoTrump => 4,
        }
    }

    pub fn from_id(i: u8) -> (r: Strain)
        requires
            i < 5,
        ensures
            r == strain_of_id(i as int),
            r.spec_id() == i,
    {
        if i < 4 {
            Strain::Suit(Suit::from_index(i))
        } else {
            Strain::NoTrump
        }
    }

    /// Decodes a strain: `NT` or `notrump`, else a suit.
    pub fn new(s: &str) -> (r: Result<Strain, GameError>)
        ensures
            r is Ok <==> strain_of_text(s@) is Some,
            r is Ok ==> strain_of_text(s@) == Some(r->Ok_0),
            r is Err ==> r->Err_0 is InvalidSuitString && r->Err_0->InvalidSuitString_0@ == s@,
    {
        if is_spelled(s, "NT", "notrump") {
            Ok(Strain::NoTrump)
        } else {
            match Suit::new(s) {
                Ok(suit) => Ok(Strain::Suit(suit)),
                Err(e) => Err(e),
            }
        }
    }

    /// The strain's name: that of its suit, or `NoTrump`.
    pub fn as_string(&self) -> (r: String)
        ensures
            r@ == strain_name(*self)@,
    {
        strain_name(*self).to_owned()
    }
}

pub open spec fn strain_name_spec(strain: Strain) -> &'static str {
    match strain {
        Strain::Suit(suit) => crate::cards::suit_name_spec(suit),
        Strain::NoTrump => "NoTrump",
    }
}

#[verifier::when_used_as_spec(strain_name_spec)]
pub fn strain_name(strain: Strain) -> (r: &'static str)
    ensures
        r == strain_name_spec(strain),
{
    match strain {
        Strain::Suit(suit) => crate::cards::suit_name(suit),
        Strain::NoTrump => "NoTrump",
    }
}

/// Strains order as their ids: the suits in order, then no trump.
impl PartialOrd for Strain {
    fn partial_cmp(&self, other: &Strain) -> (r: Option<core::cmp::Ordering>) {
        let a = self.id();
        let b = other.id();
        if a < b {
            Some(core::cmp::Ordering::Less)
        } else if a == b {
            Some(core::cmp::Ordering::Equal)
        } else {
            Some(core::cmp::Ordering::Greater)
        }
    }
}

impl vstd::std_specs::cmp::PartialOrdSpecImpl for Strain {
    open spec fn obeys_partial_cmp_spec() -> bool {
        true
    }

    open spec fn partial_cmp_spec(&self, other: &Strain) -> Option<core::cmp::Ordering> {
        if self.spec_id() < other.spec_id() {
            Some(core::cmp::Ordering::Less)
        } else if self.spec_id() == other.spec_id() {
            Some(core::cmp::Ordering::Equal)
        } else {
            Some(core::cmp::Ordering::Greater)
        }
    }
}

impl Bid {
    /// The bid's action id: five per level, strains in order.
    pub open spec fn spec_id(self) -> int {
        self.level.spec_index() * 5 + self.strain.spec_id()
    }

    pub fn id(&self) -> (r: u8)
        ensures
            r == self.spec_id(),
            r < 35,
    {
        self.level.index() * 5 + self.strain.id() as u8
    }

    /// The bid whose action id is `id`.
    pub fn from_id(id: u8) -> (r: Bid)
        requires
            id < 35,
        ensures
            r == bid_of_id(id as int),
            r.spec_id() == id,
    {
        Bid { level: Level::from_index(id / 5), strain: Strain::from_id(id % 5) }
    }

    /// A bid of `level` in the strain that `strain` names.
    pub fn new(level: Level, strain: &str) -> (r: Result<Bid, GameError>)
        ensures
            r is Ok <==> strain_of_text(strain@) is Some,
            r is Ok ==> r->Ok_0 == (Bid { level, strain: strain_of_text(strain@)->Some_0 }),
            r is Err ==> r->Err_0 is InvalidSuitString && r->Err_0->InvalidSuitString_0@
                == strain@,
    {
        match Strain::new(strain) {
            Ok(strain) => Ok(Bid { level, strain }),
            Err(e) => Err(e),
        }
    }

    /// Whether this bid ranks above `other`: by level, then by strain.
    pub fn is_above(&self, other: &Bid) -> (r: bool)
        ensures
            r == (self.spec_id() > other.spec_id()),
            r == (self.level.spec_index() > other.level.spec_index() || (self.level
                == other.level && self.strain.spec_id() > other.strain.spec_id())),
    {
        self.id() > other.id()
    }
}

impl Call {
    /// Action ids 35, 36 and 37.
    pub open spec fn spec_id(self) -> int {
        match self {
            Call::Pass => PASS_ID as int,
            Call::Double => PASS_ID + 1,
            Call::ReDouble => PASS_ID + 2,
        }
    }

    pub fn id(&self) -> (r: u8)
        ensures
            r == self.spec_id(),
    {
        match self {
            Call::Pass => PASS_ID,
            Call::Double => PASS_ID + 1,
            Call::ReDouble => PASS_ID + 2,
        }
    }

    /// The call whose action id is `id`.
    pub fn from_id(id: u8) -> (r: Call)
        requires
            PASS_ID <= id < PASS_ID + 3,
        ensures
            r == call_of_id(id as int),
            r.spec_id() == id,
    {
        if id == PASS_ID {
            Call::Pass
        } else if id == PASS_ID + 1 {
            Call::Double
        } else {
            Call::ReDouble
        }
    }

    /// Decodes a call from its name.
    pub fn new(s: &str) -> (r: Result<Call, GameError>)
        ensures
            r == (match call_of_text(s@) {
                Some(c) => Ok::<Call, GameError>(c),
                None => Err(GameError::InvalidCall),
            }),
    {
        if is_spelled(s, "pass", "Pass") {
            Ok(Call::Pass)
        } else if is_spelled(s, "double", "Double") {
            Ok(Call::Double)
        } else if is_spelled(s, "redouble", "reDouble") {
            Ok(Call::ReDouble)
        } else {
            Err(GameError::InvalidCall)
        }
    }
}

/// Recording one seat and strain changes that entry, and no other.
pub broadcast proof fn lemma_first_mentioned_set(
    fm: FirstMentioned,
    seat: Seat,
    strain: Strain,
    s: Seat,
    t: Strain,
)
    ensures
        #[trigger] fm.spec_set(seat, strain).spec_get(s, t) == ((s, t) == (seat, strain)
            || fm.spec_get(s, t)),
{
}

/// For each seat and strain, whether that seat named the strain before its partner did.
#[derive(Clone, Copy, Debug, PartialEq, Eq)]
pub struct FirstMentioned {
    inner: [bool; 20],
}

impl FirstMentioned {
    pub closed spec fn spec_get(self, seat: Seat, strain: Strain) -> bool {
        self.inner@[seat.spec_index() * 5 + strain.spec_id()]
    }

    /// No seat has named any strain.
    pub fn default() -> (r: FirstMentioned)
        ensures
            forall|seat: Seat, strain: Strain| !r.spec_get(seat, strain),
    {
        FirstMentioned { inner: [false; 20] }
    }

    /// The table with `seat` recorded as having named `strain`.
    pub closed spec fn spec_set(self, seat: Seat, strain: Strain) -> FirstMentioned {
        FirstMentioned {
            inner: spec_array_update(self.inner, seat.spec_index() * 5 + strain.spec_id(), true),
        }
    }

    /// Whether the two tables agree on every seat and strain.
    pub fn same(&self, other: &FirstMentioned) -> (r: bool)
        ensures
            r == (*self == *other),
    {
        let mut i: usize = 0;
        while i < 20
            invariant
                i <= 20,
                forall|j: int| 0 <= j < i ==> self.inner@[j] == other.inner@[j],
            decreases 20 - i,
        {
            if self.inner[i] != other.inner[i] {
                return false;
            }
            i += 1;
        }
        proof {
            vstd::array::axiom_array_ext_equal(self.inner, other.inner);
            assert(self.inner =~= other.inner);
        }
        true
    }

    pub fn get(&self, seat: Seat, strain: Strain) -> (r: bool)
        ensures
            r == self.spec_get(seat, strain),
    {
        self.inner[seat.index() * 5 + strain.id()]
    }

    /// Records `seat` as having named `strain`; nothing else changes.
    pub fn set(&mut self, seat: Seat, strain: Strain)
        ensures
            *final(self) == old(self).spec_set(seat, strain),
    {
        self.inner[seat.index() * 5 + strain.id()] = true;
    }
}

} // verus!
