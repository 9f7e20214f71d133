//! What the plugin reads from a resolved table entry, as plain values.
//!
//! The table service decodes the tables and decides which table answers
//! for an id. Its answers arrive here as an `Entry`, or its absence, and as
//! the `Languages` of a resolver's tables.

use vstd::prelude::*;
use crate::error::Failure;
use crate::text::copy_all;

verus! {

/// Flag bit: the entry has a text.
pub const HAS_TEXT: u32 = 1;

/// Flag bit: the entry names a sound resource.
pub const HAS_SOUND: u32 = 2;

/// Flag bit: the entry gives the length of its sound.
pub const HAS_SOUND_LENGTH: u32 = 4;

/// A table row. A field counts only while its flag bit is set.
#[derive(Debug)]
pub struct Entry {
    pub flags: u32,
    pub text: Vec<u8>,
    pub sound_resref: Vec<u8>,
    /// The sound's length in seconds, as the bits of a 32-bit float.
    pub sound_length_bits: u32,
}

/// The language ids of a resolver's tables. The base table is always there.
#[derive(Clone, Copy, Debug, PartialEq, Eq, Structural)]
pub struct Languages {
    pub base: u32,
    pub base_f: Option<u32>,
    pub user: Option<u32>,
}

/// The tables of one resolver: the base table, and where they were given
/// the table of the alternate variant and the override table.
pub struct Tables<T> {
    pub base: T,
    pub base_f: Option<T>,
    pub user: Option<T>,
}

/// How the reading of an optional table ended.
pub enum TableRead<T> {
    /// The request names no such table.
    NotGiven,
    /// The table could not be read or decoded.
    Failed,
    /// The table.
    Read(T),
}

impl<T> TableRead<T> {
    /// The reading did not fail.
    pub open spec fn is_good(self) -> bool {
        !(self is Failed)
    }

    /// The table that was read, if one was asked for.
    pub open spec fn table(self) -> Option<T> {
        match self {
            TableRead::Read(t) => Some(t),
            _ => None,
        }
    }
}

/// The resolver tables that a load ends with: there are some only where
/// the base table was read and no table that was asked for failed.
pub open spec fn assembled<T>(base: Option<T>, base_f: TableRead<T>, user: TableRead<T>) -> Option<
    Tables<T>,
> {
    if base.is_some() && base_f.is_good() && user.is_good() {
        Some(Tables { base: base.unwrap(), base_f: base_f.table(), user: user.table() })
    } else {
        None
    }
}

impl<T> Tables<T> {
    /// Puts the tables of a resolver together from what the readings gave.
    /// One failed reading fails the whole load.
    pub fn assemble(base: Option<T>, base_f: TableRead<T>, user: TableRead<T>) -> (tables: Option<
        Tables<T>,
    >)
        ensures
            tables == assembled(base, base_f, user),
    {
        match base {
            Some(base) => {
                let base_f = match base_f {
                    TableRead::NotGiven => None,
                    TableRead::Failed => {
                        return None;
                    },
                    TableRead::Read(t) => Some(t),
                };
                let user = match user {
                    TableRead::NotGiven => None,
                    TableRead::Failed => {
                        return None;
                    },
                    TableRead::Read(t) => Some(t),
                };
                Some(Tables { base, base_f, user })
            },
            None => None,
        }
    }
}

/// Whether `flag` is set in `flags`.
pub open spec fn flag_set(flags: u32, flag: u32) -> bool {
    flags & flag != 0
}

/// The flags of an entry that has just the given fields.
pub open spec fn presence_flags(text: bool, sound: bool, sound_length: bool) -> u32 {
    (if text { HAS_TEXT } else { 0u32 }) | (if sound { HAS_SOUND } else { 0u32 }) | (if sound_length {
        HAS_SOUND_LENGTH
    } else {
        0u32
    })
}

/// An integer reply for an unsigned value: the value where it fits.
pub open spec fn int_of(value: u32) -> Result<i32, Failure> {
    if value <= i32::MAX as u32 {
        Ok(value as i32)
    } else {
        Err(Failure::OutOfRange)
    }
}

/// The flags of a looked-up entry; no flag is set where there is no entry.
pub open spec fn flags_of(entry: Option<&Entry>) -> Result<i32, Failure> {
    match entry {
        Some(e) => int_of(e.flags),
        None => Ok(0i32),
    }
}

/// The sound length of a looked-up entry, as float bits; zero where there
/// is no entry or the entry gives no length.
pub open spec fn sound_length_of(entry: Option<&Entry>) -> u32 {
    match entry {
        Some(e) => if flag_set(e.flags, HAS_SOUND_LENGTH) {
            e.sound_length_bits
        } else {
            0u32
        },
        None => 0u32,
    }
}

/// The sound resource of a looked-up entry; empty where there is no entry
/// or the entry names no sound.
pub open spec fn sound_resref_of(entry: Option<&Entry>) -> Seq<u8> {
    match entry {
        Some(e) => if flag_set(e.flags, HAS_SOUND) {
            e.sound_resref@
        } else {
            Seq::empty()
        },
        None => Seq::empty(),
    }
}

/// The text of a looked-up entry; empty where there is no entry or the
/// entry has no text.
pub open spec fn text_of(entry: Option<&Entry>) -> Seq<u8> {
    match entry {
        Some(e) => if flag_set(e.flags, HAS_TEXT) {
            e.text@
        } else {
            Seq::empty()
        },
        None => Seq::empty(),
    }
}

/// The language id of the table that `tlk_index` names: 0 the base table,
/// 1 the table of the alternate variant, 2 the override table.
pub open spec fn lang_of(languages: Languages, tlk_index: i32) -> Result<i32, Failure> {
    if tlk_index == 0 {
        int_of(languages.base)
    } else if tlk_index == 1 {
        match languages.base_f {
            Some(id) => int_of(id),
            None => Err(Failure::NoBaseFTable),
        }
    } else if tlk_index == 2 {
        match languages.user {
            Some(id) => int_of(id),
            None => Err(Failure::NoUserTable),
        }
    } else {
        Err(Failure::InvalidTableIndex)
    }
}

fn to_int(value: u32) -> (r: Result<i32, Failure>)
    ensures
        r == int_of(value),
{
    if value <= 0x7FFF_FFFF {
        Ok(value as i32)
    } else {
        Err(Failure::OutOfRange)
    }
}

impl Entry {
    /// Builds an entry from the fields it has. A flag is set for each field
    /// that is there; a field that is not there is empty or zero.
    pub fn from_parts(
        text: Option<Vec<u8>>,
        sound_resref: Option<Vec<u8>>,
        sound_length_bits: Option<u32>,
    ) -> (e: Entry)
        ensures
            e.flags == presence_flags(
                text.is_some(),
                sound_resref.is_some(),
                sound_length_bits.is_some(),
            ),
            flag_set(e.flags, HAS_TEXT) == text.is_some(),
            flag_set(e.flags, HAS_SOUND) == sound_resref.is_some(),
            flag_set(e.flags, HAS_SOUND_LENGTH) == sound_length_bits.is_some(),
            e.flags <= 7,
            e.text@ == (match text {
                Some(t) => t@,
                None => Seq::empty(),
            }),
            e.sound_resref@ == (match sound_resref {
                Some(s) => s@,
                None => Seq::empty(),
            }),
            e.sound_length_bits == (match sound_length_bits {
                Some(bits) => bits,
                None => 0u32,
            }),
    {
        let a: u32 = if text.is_some() { HAS_TEXT } else { 0 };
        let b: u32 = if sound_resref.is_some() { HAS_SOUND } else { 0 };
        let c: u32 = if sound_length_bits.is_some() { HAS_SOUND_LENGTH } else { 0 };
        proof {
            assert((a == 0 || a == 1) && (b == 0 || b == 2) && (c == 0 || c == 4) ==> (((a | b | c)
                & 1u32 != 0) == (a == 1)) && (((a | b | c) & 2u32 != 0) == (b == 2)) && (((a | b
                | c) & 4u32 != 0) == (c == 4)) && (a | b | c) <= 7) by (bit_vector);
        }
        Entry {
            flags: a | b | c,
            text: match text {
                Some(t) => t,
                None => Vec::new(),
            },
            sound_resref: match sound_resref {
                Some(s) => s,
                None => Vec::new(),
            },
            sound_length_bits: match sound_length_bits {
                Some(bits) => bits,
                None => 0,
            },
        }
    }

    /// Whether `flag` is set for this entry.
    pub fn has(&self, flag: u32) -> (set: bool)
        ensures
            set == flag_set(self.flags, flag),
    {
        self.flags & flag != 0
    }
}

/// The flags of a looked-up entry, as an integer reply.
pub fn get_flags(entry: Option<&Entry>) -> (r: Result<i32, Failure>)
    ensures
        r == flags_of(entry),
{
    match entry {
        Some(e) => to_int(e.flags),
        None => Ok(0),
    }
}

/// The sound length of a looked-up entry, as float bits.
pub fn get_sound_length(entry: Option<&Entry>) -> (bits: u32)
    ensures
        bits == sound_length_of(entry),
{
    match entry {
        Some(e) => if e.has(HAS_SOUND_LENGTH) {
            e.sound_length_bits
        } else {
            0
        },
        None => 0,
    }
}

/// The sound resource of a looked-up entry.
pub fn get_sound_resref(entry: Option<&Entry>) -> (name: Vec<u8>)
    ensures
        name@ == sound_resref_of(entry),
{
    match entry {
        Some(e) => if e.has(HAS_SOUND) {
            copy_all(e.sound_resref.as_slice())
        } else {
            Vec::new()
        },
        None => Vec::new(),
    }
}

/// The text of a looked-up entry.
pub fn get_text(entry: Option<&Entry>) -> (text: Vec<u8>)
    ensures
        text@ == text_of(entry),
{
    match entry {
        Some(e) => if e.has(HAS_TEXT) {
            copy_all(e.text.as_slice())
        } else {
            Vec::new()
        },
        None => Vec::new(),
    }
}

/// The language id of one of a resolver's tables, as an integer reply.
pub fn get_lang(languages: &Languages, tlk_index: i32) -> (r: Result<i32, Failure>)
    ensures
        r == lang_of(*languages, tlk_index),
{
    if tlk_index == 0 {
        to_int(languages.base)
    } else if tlk_index == 1 {
        match languages.base_f {
            Some(id) => to_int(id),
            None => Err(Failure::NoBaseFTable),
        }
    } else if tlk_index == 2 {
        match languages.user {
            Some(id) => to_int(id),
            None => Err(Failure::NoUserTable),
        }
    } else {
        Err(Failure::InvalidTableIndex)
    }
}

} // verus!
