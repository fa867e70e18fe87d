//! Options written as `name=value,name=value,flag`.
//!
//! A parser is told the names it takes, then given the text. An option
//! that takes a value is written `name=value`, one that takes none by its
//! name alone. Options are separated by commas; white space around the
//! whole text and around a value is passed over.

use crate::text::opt_text;
use crate::text::parse_byte_sized;
use crate::text::parse_toggle;
use crate::text::parse_u16;
use crate::text::parse_u64;
use crate::text::parse_u8;
use crate::text::parse_unsigned;
use crate::text::parse_usize;
use crate::text::same_text;
use crate::text::spec_byte_sized;
use crate::text::spec_toggle;
use crate::text::split;
use crate::text::split_fields;
use crate::text::texts;
use crate::text::trim;
use crate::text::trim_bounds;
use crate::text::trimmed;
use vstd::prelude::*;
use vstd::string::*;

verus! {

#[derive(Debug, PartialEq, Eq)]
pub enum OptionParserError {
    /// The option is none that the parser takes.
    UnknownOption(String),
    /// The option takes a value and is not written `name=value`.
    InvalidSyntax(String),
    /// The value of the option, first field, is not of the kind asked for;
    /// the value is the second field.
    Conversion(String, String),
}

/// What an `OptionParserError` says, as text.
pub enum OptionParserFailure {
    UnknownOption(Seq<char>),
    InvalidSyntax(Seq<char>),
    Conversion(Seq<char>, Seq<char>),
}

impl View for OptionParserError {
    type V = OptionParserFailure;

    open spec fn view(&self) -> OptionParserFailure {
        match self {
            OptionParserError::UnknownOption(o) => OptionParserFailure::UnknownOption(o@),
            OptionParserError::InvalidSyntax(o) => OptionParserFailure::InvalidSyntax(o@),
            OptionParserError::Conversion(o, v) => OptionParserFailure::Conversion(o@, v@),
        }
    }
}

/// What a failure says to the user.
pub open spec fn failure_text(f: OptionParserFailure) -> Seq<char> {
    match f {
        OptionParserFailure::UnknownOption(o) => "unknown option: "@ + o,
        OptionParserFailure::InvalidSyntax(o) => "invalid syntax: "@ + o,
        OptionParserFailure::Conversion(o, v) => "unable to parse "@ + v + " for "@ + o,
    }
}

impl OptionParserError {
    /// What the error says to the user.
    pub fn to_string(&self) -> (r: String)
        ensures
            r@ == failure_text(self@),
    {
        match self {
            OptionParserError::UnknownOption(o) => "unknown option: ".to_owned().concat(o.as_str()),
            OptionParserError::InvalidSyntax(o) => "invalid syntax: ".to_owned().concat(o.as_str()),
            OptionParserError::Conversion(o, v) => "unable to parse ".to_owned().concat(
                v.as_str(),
            ).concat(" for ").concat(o.as_str()),
        }
    }
}

/// An option that a parser takes.
#[derive(Debug)]
pub struct OptionParserValue {
    pub name: String,
    /// What the text gave for it; the empty text for an option without a
    /// value.
    pub value: Option<String>,
    pub requires_value: bool,
}

/// An option that a parser takes, as text.
pub struct OptionSlot {
    pub name: Seq<char>,
    pub value: Option<Seq<char>>,
    pub requires_value: bool,
}

impl View for OptionParserValue {
    type V = OptionSlot;

    open spec fn view(&self) -> OptionSlot {
        OptionSlot {
            name: self.name@,
            value: opt_text(self.value),
            requires_value: self.requires_value,
        }
    }
}

/// The options that a parser takes. Of two with the same name the later
/// one counts.
#[derive(Debug)]
pub struct OptionParser {
    pub options: Vec<OptionParserValue>,
}

impl View for OptionParser {
    type V = Seq<OptionSlot>;

    open spec fn view(&self) -> Seq<OptionSlot> {
        Seq::new(self.options@.len(), |i: int| self.options@[i]@)
    }
}

/// Where the option `name` stands among `slots`, if it is among them.
pub open spec fn find_slot(slots: Seq<OptionSlot>, name: Seq<char>) -> Option<int>
    decreases slots.len(),
{
    if slots.len() == 0 {
        None
    } else if slots.last().name == name {
        Some(slots.len() - 1)
    } else {
        find_slot(slots.drop_last(), name)
    }
}

/// What the text gave for the option `name`.
pub open spec fn slot_value(slots: Seq<OptionSlot>, name: Seq<char>) -> Option<Seq<char>> {
    match find_slot(slots, name) {
        Some(i) => slots[i].value,
        None => None,
    }
}

/// Whether the text gave the option `name`.
pub open spec fn slot_set(slots: Seq<OptionSlot>, name: Seq<char>) -> bool {
    slot_value(slots, name) is Some
}

/// The options with one more that is taken.
pub open spec fn with_option(slots: Seq<OptionSlot>, name: Seq<char>, requires_value: bool) -> Seq<
    OptionSlot,
> {
    slots.push(OptionSlot { name, value: None, requires_value })
}

/// The options after one item of the text: its name is what stands before
/// the first `=`. An option that takes a value wants exactly one `=` and
/// gets what stands behind it, without the white space around it.
pub open spec fn apply_item(slots: Seq<OptionSlot>, item: Seq<char>) -> Result<
    Seq<OptionSlot>,
    OptionParserFailure,
> {
    let parts = split(item, '=');
    match find_slot(slots, parts[0]) {
        None => Err(OptionParserFailure::UnknownOption(parts[0])),
        Some(i) => if slots[i].requires_value {
            if parts.len() != 2 {
                Err(OptionParserFailure::InvalidSyntax(item))
            } else {
                Ok(slots.update(i, OptionSlot { value: Some(trim(parts[1])), ..slots[i] }))
            }
        } else {
            Ok(slots.update(i, OptionSlot { value: Some(Seq::empty()), ..slots[i] }))
        },
    }
}

/// The options after the items of the text, taken in their order up to the
/// first that fails.
pub open spec fn apply_items(slots: Seq<OptionSlot>, items: Seq<Seq<char>>) -> Result<
    Seq<OptionSlot>,
    OptionParserFailure,
>
    decreases items.len(),
{
    if items.len() == 0 {
        Ok(slots)
    } else {
        match apply_items(slots, items.drop_last()) {
            Ok(s) => apply_item(s, items.last()),
            Err(e) => Err(e),
        }
    }
}

/// The options after the text `input`: nothing changes for a text of
/// white space; else the text without the white space around it is taken
/// item by item.
pub open spec fn parse_options(slots: Seq<OptionSlot>, input: Seq<char>) -> Result<
    Seq<OptionSlot>,
    OptionParserFailure,
> {
    if trim(input).len() == 0 {
        Ok(slots)
    } else {
        apply_items(slots, split(trim(input), ','))
    }
}

/// The value of the option `name` read by `read`, if the text gave one.
pub open spec fn convert_slot<T>(
    slots: Seq<OptionSlot>,
    name: Seq<char>,
    read: spec_fn(Seq<char>) -> Option<T>,
) -> Result<Option<T>, OptionParserFailure> {
    match slot_value(slots, name) {
        None => Ok(None),
        Some(v) => match read(v) {
            Some(x) => Ok(Some(x)),
            None => Err(OptionParserFailure::Conversion(name, v)),
        },
    }
}

/// Whether `r` says what `expected` does.
pub open spec fn says<T>(r: Result<T, OptionParserError>, expected: Result<
    T,
    OptionParserFailure,
>) -> bool {
    match r {
        Ok(v) => expected == Ok::<T, OptionParserFailure>(v),
        Err(e) => expected == Err::<T, OptionParserFailure>(e@),
    }
}

/// The number up to 255 that `v` writes.
pub open spec fn spec_u8(v: Seq<char>) -> Option<u8> {
    match parse_unsigned(v, 0xff) {
        Some(n) => Some(n as u8),
        None => None,
    }
}

/// The number up to 65535 that `v` writes.
pub open spec fn spec_u16(v: Seq<char>) -> Option<u16> {
    match parse_unsigned(v, 0xffff) {
        Some(n) => Some(n as u16),
        None => None,
    }
}

/// The number below 2^64 that `v` writes.
pub open spec fn spec_u64(v: Seq<char>) -> Option<u64> {
    match parse_unsigned(v, u64::MAX as nat) {
        Some(n) => Some(n as u64),
        None => None,
    }
}

/// The number that `v` writes, if a `usize` holds it.
pub open spec fn spec_usize(v: Seq<char>) -> Option<usize> {
    match parse_unsigned(v, usize::MAX as nat) {
        Some(n) => Some(n as usize),
        None => None,
    }
}

/// The value of the option `name` as a number up to 255.
pub open spec fn u8_slot(slots: Seq<OptionSlot>, name: Seq<char>) -> Result<
    Option<u8>,
    OptionParserFailure,
> {
    convert_slot(slots, name, |v: Seq<char>| spec_u8(v))
}

/// The value of the option `name` as a number up to 65535.
pub open spec fn u16_slot(slots: Seq<OptionSlot>, name: Seq<char>) -> Result<
    Option<u16>,
    OptionParserFailure,
> {
    convert_slot(slots, name, |v: Seq<char>| spec_u16(v))
}

/// The value of the option `name` as a number below 2^64.
pub open spec fn u64_slot(slots: Seq<OptionSlot>, name: Seq<char>) -> Result<
    Option<u64>,
    OptionParserFailure,
> {
    convert_slot(slots, name, |v: Seq<char>| spec_u64(v))
}

/// The value of the option `name` as a `usize`.
pub open spec fn usize_slot(slots: Seq<OptionSlot>, name: Seq<char>) -> Result<
    Option<usize>,
    OptionParserFailure,
> {
    convert_slot(slots, name, |v: Seq<char>| spec_usize(v))
}

/// The value of the option `name` as a switch.
pub open spec fn toggle_slot(slots: Seq<OptionSlot>, name: Seq<char>) -> Result<
    Option<bool>,
    OptionParserFailure,
> {
    convert_slot(slots, name, |v: Seq<char>| spec_toggle(v))
}

/// The value of the option `name` as a number of bytes.
pub open spec fn byte_sized_slot(slots: Seq<OptionSlot>, name: Seq<char>) -> Result<
    Option<u64>,
    OptionParserFailure,
> {
    convert_slot(slots, name, |v: Seq<char>| spec_byte_sized(v))
}

/// `r` with `default` where the text gave no value.
pub open spec fn or_default<T>(r: Result<Option<T>, OptionParserFailure>, default: T) -> Result<
    T,
    OptionParserFailure,
> {
    match r {
        Ok(Some(v)) => Ok(v),
        Ok(None) => Ok(default),
        Err(e) => Err(e),
    }
}

/// Where no slot from `i` on has the name, the slots before `i` decide.
pub proof fn lemma_find_slot_before(slots: Seq<OptionSlot>, name: Seq<char>, i: int)
    requires
        0 <= i <= slots.len(),
        forall|j: int| i <= j < slots.len() ==> (#[trigger] slots[j]).name != name,
    ensures
        find_slot(slots, name) == find_slot(slots.take(i), name),
    decreases slots.len() - i,
{
    if i == slots.len() {
        assert(slots.take(i) =~= slots);
    } else {
        assert(slots.last().name != name);
        let rest = slots.drop_last();
        assert forall|j: int| i <= j < rest.len() implies (#[trigger] rest[j]).name != name by {
            assert(rest[j] == slots[j]);
        }
        lemma_find_slot_before(rest, name, i);
        assert(rest.take(i) =~= slots.take(i));
    }
}

/// A failure at some item is the failure of all the items.
pub proof fn lemma_apply_items_fails(slots: Seq<OptionSlot>, items: Seq<Seq<char>>, k: int)
    requires
        0 <= k <= items.len(),
        apply_items(slots, items.take(k)) is Err,
    ensures
        apply_items(slots, items) == apply_items(slots, items.take(k)),
    decreases items.len() - k,
{
    if k == items.len() {
        assert(items.take(k) =~= items);
    } else {
        let rest = items.drop_last();
        assert(rest.take(k) =~= items.take(k));
        lemma_apply_items_fails(slots, rest, k);
    }
}

impl OptionParser {
    /// A parser that takes no option yet.
    pub fn new() -> (r: OptionParser)
        ensures
            r@ == Seq::<OptionSlot>::empty(),
    {
        let r = OptionParser { options: Vec::new() };
        assert(r@ =~= Seq::<OptionSlot>::empty());
        r
    }

    /// Takes the option `option` from now on, with or without a value.
    fn take(&mut self, option: &str, requires_value: bool)
        ensures
            final(self)@ == with_option(old(self)@, option@, requires_value),
    {
        self.options.push(
            OptionParserValue { name: option.to_owned(), value: None, requires_value },
        );
        assert(self@ =~= with_option(old(self)@, option@, requires_value));
    }

    /// Takes the option `option`, which has a value, from now on.
    pub fn add(&mut self, option: &str) -> (r: &mut Self)
        ensures
            r@ == with_option(old(self)@, option@, true),
            *final(self) == *final(r),
    {
        self.take(option, true);
        self
    }

    /// Takes the option `option`, which has no value, from now on.
    pub fn add_valueless(&mut self, option: &str) -> (r: &mut Self)
        ensures
            r@ == with_option(old(self)@, option@, false),
            *final(self) == *final(r),
    {
        self.take(option, false);
        self
    }

    /// Where the option `option` stands.
    fn find(&self, option: &str) -> (r: Option<usize>)
        ensures
            r matches Some(i) ==> i < self.options@.len() && find_slot(self@, option@) == Some(
                i as int,
            ),
            r is None ==> find_slot(self@, option@) is None,
    {
        let mut i: usize = self.options.len();
        proof {
            lemma_find_slot_before(self@, option@, i as int);
        }
        while i > 0
            invariant
                i <= self.options@.len(),
                forall|j: int| i <= j < self@.len() ==> (#[trigger] self@[j]).name != option@,
            decreases i,
        {
            i -= 1;
            if same_text(self.options[i].name.as_str(), option) {
                proof {
                    lemma_find_slot_before(self@, option@, i + 1);
                    assert(self@.take(i + 1).last() == self@[i as int]);
                }
                return Some(i);
            }
        }
        proof {
            lemma_find_slot_before(self@, option@, 0);
            assert(self@.take(0) =~= Seq::<OptionSlot>::empty());
        }
        None
    }

    /// Takes one item of the text.
    fn apply(&mut self, item: &str) -> (r: Result<(), OptionParserError>)
        ensures
            match r {
                Ok(_) => apply_item(old(self)@, item@) == Ok::<
                    Seq<OptionSlot>,
                    OptionParserFailure,
                >(final(self)@),
                Err(e) => apply_item(old(self)@, item@) == Err::<
                    Seq<OptionSlot>,
                    OptionParserFailure,
                >(e@),
            },
    {
        let parts = split_fields(item, '=');
        let ghost fields = split(item@, '=');
        assert(fields[0] == parts@[0]@);
        let at = match self.find(parts[0].as_str()) {
            Some(i) => i,
            None => {
                return Err(OptionParserError::UnknownOption(parts[0].clone()));
            },
        };
        let requires_value = self.options[at].requires_value;
        let value = if requires_value {
            if parts.len() != 2 {
                return Err(OptionParserError::InvalidSyntax(item.to_owned()));
            }
            assert(fields[1] == parts@[1]@);
            trimmed(parts[1].as_str())
        } else {
            String::new()
        };
        let name = self.options[at].name.clone();
        self.options.set(at, OptionParserValue { name, value: Some(value), requires_value });
        assert(self@ =~= old(self)@.update(
            at as int,
            OptionSlot { value: Some(value@), ..old(self)@[at as int] },
        ));
        Ok(())
    }

    /// Takes the text `input`. After a failure the parser holds what the
    /// items before the failing one gave.
    pub fn parse(&mut self, input: &str) -> (r: Result<(), OptionParserError>)
        ensures
            match r {
                Ok(_) => parse_options(old(self)@, input@) == Ok::<
                    Seq<OptionSlot>,
                    OptionParserFailure,
                >(final(self)@),
                Err(e) => parse_options(old(self)@, input@) == Err::<
                    Seq<OptionSlot>,
                    OptionParserFailure,
                >(e@),
            },
    {
        let (a, b) = trim_bounds(input);
        if a == b {
            return Ok(());
        }
        let options_list = split_fields(input.substring_char(a, b), ',');
        let ghost items = split(trim(input@), ',');
        let mut i: usize = 0;
        assert(items.take(0) =~= Seq::<Seq<char>>::empty());
        while i < options_list.len()
            invariant
                i <= options_list@.len(),
                texts(options_list@) == items,
                items == split(trim(input@), ','),
                trim(input@).len() != 0,
                apply_items(old(self)@, items.take(i as int)) == Ok::<
                    Seq<OptionSlot>,
                    OptionParserFailure,
                >(self@),
            decreases options_list@.len() - i,
        {
            assert(items.take(i + 1).drop_last() =~= items.take(i as int));
            assert(items.take(i + 1).last() == options_list@[i as int]@);
            let ghost before = self@;
            match self.apply(options_list[i].as_str()) {
                Ok(_) => {},
                Err(e) => {
                    proof {
                        assert(apply_item(before, items[i as int]) is Err);
                        assert(apply_items(old(self)@, items.take(i + 1)) == apply_item(
                            before,
                            items[i as int],
                        ));
                        lemma_apply_items_fails(old(self)@, items, i + 1);
                    }
                    return Err(e);
                },
            }
            i += 1;
        }
        assert(items.take(i as int) =~= items);
        Ok(())
    }

    /// What the text gave for the option `option`.
    pub fn get(&self, option: &str) -> (r: Option<String>)
        ensures
            opt_text(r) == slot_value(self@, option@),
    {
        match self.find(option) {
            Some(i) => match &self.options[i].value {
                Some(v) => Some(v.clone()),
                None => None,
            },
            None => None,
        }
    }

    /// Whether the text gave the option `option`.
    pub fn is_set(&self, option: &str) -> (r: bool)
        ensures
            r == slot_set(self@, option@),
    {
        match self.find(option) {
            Some(i) => self.options[i].value.is_some(),
            None => false,
        }
    }

    /// The failure of a value to be of the kind asked for.
    fn conversion(option: &str, value: String) -> (r: OptionParserError)
        ensures
            r@ == OptionParserFailure::Conversion(option@, value@),
    {
        OptionParserError::Conversion(option.to_owned(), value)
    }

    /// The value of the option as a number up to 255.
    pub fn convert_u8(&self, option: &str) -> (r: Result<Option<u8>, OptionParserError>)
        ensures
            says(r, u8_slot(self@, option@)),
    {
        match self.get(option) {
            None => Ok(None),
            Some(v) => match parse_u8(v.as_str()) {
                Some(n) => Ok(Some(n)),
                None => Err(Self::conversion(option, v)),
            },
        }
    }

    /// The value of the option as a number up to 65535.
    pub fn convert_u16(&self, option: &str) -> (r: Result<Option<u16>, OptionParserError>)
        ensures
            says(r, u16_slot(self@, option@)),
    {
        match self.get(option) {
            None => Ok(None),
            Some(v) => match parse_u16(v.as_str()) {
                Some(n) => Ok(Some(n)),
                None => Err(Self::conversion(option, v)),
            },
        }
    }

    /// The value of the option as a number below 2^64.
    pub fn convert_u64(&self, option: &str) -> (r: Result<Option<u64>, OptionParserError>)
        ensures
            says(r, u64_slot(self@, option@)),
    {
        match self.get(option) {
            None => Ok(None),
            Some(v) => match parse_u64(v.as_str()) {
                Some(n) => Ok(Some(n)),
                None => Err(Self::conversion(option, v)),
            },
        }
    }

    /// The value of the option as a `usize`.
    pub fn convert_usize(&self, option: &str) -> (r: Result<Option<usize>, OptionParserError>)
        ensures
            says(r, usize_slot(self@, option@)),
    {
        match self.get(option) {
            None => Ok(None),
            Some(v) => match parse_usize(v.as_str()) {
                Some(n) => Ok(Some(n)),
                None => Err(Self::conversion(option, v)),
            },
        }
    }

    /// The value of the option as a switch.
    pub fn convert_toggle(&self, option: &str) -> (r: Result<Option<bool>, OptionParserError>)
        ensures
            says(r, toggle_slot(self@, option@)),
    {
        match self.get(option) {
            None => Ok(None),
            Some(v) => match parse_toggle(v.as_str()) {
                Some(n) => Ok(Some(n)),
                None => Err(Self::conversion(option, v)),
            },
        }
    }

    /// The value of the option as a number of bytes.
    pub fn convert_byte_sized(&self, option: &str) -> (r: Result<Option<u64>, OptionParserError>)
        ensures
            says(r, byte_sized_slot(self@, option@)),
    {
        match self.get(option) {
            None => Ok(None),
            Some(v) => match parse_byte_sized(v.as_str()) {
                Some(n) => Ok(Some(n)),
                None => Err(Self::conversion(option, v)),
            },
        }
    }

    /// The value of the option as a switch, or `default` without one.
    pub fn toggle_or(&self, option: &str, default: bool) -> (r: Result<bool, OptionParserError>)
        ensures
            says(r, or_default(toggle_slot(self@, option@), default)),
    {
        match self.convert_toggle(option) {
            Ok(Some(v)) => Ok(v),
            Ok(None) => Ok(default),
            Err(e) => Err(e),
        }
    }

    /// The value of the option as a number up to 65535, or `default`
    /// without one.
    pub fn u16_or(&self, option: &str, default: u16) -> (r: Result<u16, OptionParserError>)
        ensures
            says(r, or_default(u16_slot(self@, option@), default)),
    {
        match self.convert_u16(option) {
            Ok(Some(v)) => Ok(v),
            Ok(None) => Ok(default),
            Err(e) => Err(e),
        }
    }

    /// The value of the option as a `usize`, or `default` without one.
    pub fn usize_or(&self, option: &str, default: usize) -> (r: Result<usize, OptionParserError>)
        ensures
            says(r, or_default(usize_slot(self@, option@), default)),
    {
        match self.convert_usize(option) {
            Ok(Some(v)) => Ok(v),
            Ok(None) => Ok(default),
            Err(e) => Err(e),
        }
    }

    /// The value of the option as a number of bytes, or `default` without
    /// one.
    pub fn byte_sized_or(&self, option: &str, default: u64) -> (r: Result<u64, OptionParserError>)
        ensures
            says(r, or_default(byte_sized_slot(self@, option@), default)),
    {
        match self.convert_byte_sized(option) {
            Ok(Some(v)) => Ok(v),
            Ok(None) => Ok(default),
            Err(e) => Err(e),
        }
    }
}

} // verus!
