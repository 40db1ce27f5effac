//! Bit sets with named flags.

use vstd::prelude::*;
use vstd::string::StringExecFns;

verus! {

/// Names joined with " | " between them.
pub open spec fn join_names(names: Seq<&'static str>) -> Seq<char>
    decreases names.len(),
{
    if names.len() == 0 {
        Seq::empty()
    } else if names.len() == 1 {
        names[0]@
    } else {
        join_names(names.drop_last()) + " | "@ + names.last()@
    }
}

/// Appends `name` to the text of the names in `names`.
fn push_name(out: &mut String, names: Ghost<Seq<&'static str>>, first: bool, name: &'static str)
    requires
        old(out)@ == join_names(names@),
        first == (names@.len() == 0),
    ensures
        final(out)@ == join_names(names@.push(name)),
{
    proof {
        assert(names@.push(name).drop_last() =~= names@);
    }
    if !first {
        out.append(" | ");
    }
    out.append(name);
    proof {
        if names@.len() == 0 {
            assert(old(out)@ =~= Seq::<char>::empty());
            assert(final(out)@ =~= name@);
        }
    }
}

/// Viewport mode bits of an Amiga display ("CAMG").
#[derive(Clone, Copy, Debug, PartialEq, Eq, Structural)]
pub struct AmigaViewportFlags(pub u32);

impl AmigaViewportFlags {
    pub const GENLOCK_VIDEO: u32 = 0x0002;
    pub const LACE: u32 = 0x0004;
    pub const DOUBLESCAN: u32 = 0x0008;
    pub const SUPERHIRES: u32 = 0x0020;
    pub const PFBA: u32 = 0x0040;
    pub const EXTRA_HALFBRITE: u32 = 0x0080;
    pub const GENLOCK_AUDIO: u32 = 0x0100;
    pub const DUALPF: u32 = 0x0400;
    pub const HAM: u32 = 0x0800;
    pub const EXTENDED_MODE: u32 = 0x1000;
    pub const VP_HIDE: u32 = 0x2000;
    pub const SPRITES: u32 = 0x4000;
    pub const HIRES: u32 = 0x8000;

    pub open spec fn spec_contains(self, mask: u32) -> bool {
        self.0 & mask == mask
    }

    /// Whether every bit of `mask` is set.
    pub fn contains(&self, mask: u32) -> (r: bool)
        ensures
            r == self.spec_contains(mask),
    {
        self.0 & mask == mask
    }
}

/// The named Amiga viewport flags, in the order they are listed.
pub open spec fn amiga_flag_table() -> Seq<(u32, &'static str)> {
    seq![
        (AmigaViewportFlags::GENLOCK_VIDEO, "GENLOCK_VIDEO"),
        (AmigaViewportFlags::LACE, "LACE"),
        (AmigaViewportFlags::DOUBLESCAN, "DOUBLESCAN"),
        (AmigaViewportFlags::SUPERHIRES, "SUPERHIRES"),
        (AmigaViewportFlags::PFBA, "PFBA"),
        (AmigaViewportFlags::EXTRA_HALFBRITE, "EXTRA_HALFBRITE"),
        (AmigaViewportFlags::GENLOCK_AUDIO, "GENLOCK_AUDIO"),
        (AmigaViewportFlags::DUALPF, "DUALPF"),
        (AmigaViewportFlags::HAM, "HAM"),
        (AmigaViewportFlags::EXTENDED_MODE, "EXTENDED_MODE"),
        (AmigaViewportFlags::VP_HIDE, "VP_HIDE"),
        (AmigaViewportFlags::SPRITES, "SPRITES"),
        (AmigaViewportFlags::HIRES, "HIRES"),
    ]
}

/// The names of the first `n` listed flags that `v` contains, in order.
pub open spec fn amiga_active_names(v: u32, n: int) -> Seq<&'static str>
    decreases n,
{
    if n <= 0 {
        Seq::empty()
    } else {
        let prev = amiga_active_names(v, n - 1);
        let e = amiga_flag_table()[n - 1];
        if v & e.0 == e.0 { prev.push(e.1) } else { prev }
    }
}

/// The name of the first listed flag equal to `v`, searching from `i`.
pub open spec fn amiga_exact_name(v: u32, i: int) -> Option<&'static str>
    decreases amiga_flag_table().len() - i,
{
    if i < 0 || i >= amiga_flag_table().len() {
        None
    } else if amiga_flag_table()[i].0 == v {
        Some(amiga_flag_table()[i].1)
    } else {
        amiga_exact_name(v, i + 1)
    }
}

fn amiga_flag_list() -> (r: Vec<(u32, &'static str)>)
    ensures
        r@ == amiga_flag_table(),
{
    let mut r: Vec<(u32, &'static str)> = Vec::new();
    r.push((AmigaViewportFlags::GENLOCK_VIDEO, "GENLOCK_VIDEO"));
    r.push((AmigaViewportFlags::LACE, "LACE"));
    r.push((AmigaViewportFlags::DOUBLESCAN, "DOUBLESCAN"));
    r.push((AmigaViewportFlags::SUPERHIRES, "SUPERHIRES"));
    r.push((AmigaViewportFlags::PFBA, "PFBA"));
    r.push((AmigaViewportFlags::EXTRA_HALFBRITE, "EXTRA_HALFBRITE"));
    r.push((AmigaViewportFlags::GENLOCK_AUDIO, "GENLOCK_AUDIO"));
    r.push((AmigaViewportFlags::DUALPF, "DUALPF"));
    r.push((AmigaViewportFlags::HAM, "HAM"));
    r.push((AmigaViewportFlags::EXTENDED_MODE, "EXTENDED_MODE"));
    r.push((AmigaViewportFlags::VP_HIDE, "VP_HIDE"));
    r.push((AmigaViewportFlags::SPRITES, "SPRITES"));
    r.push((AmigaViewportFlags::HIRES, "HIRES"));
    proof {
        assert(r@ =~= amiga_flag_table());
    }
    r
}

impl AmigaViewportFlags {
    /// The text shown for the flags: the name of the listed flag equal to
    /// the whole value, else the names of the listed flags it contains,
    /// joined by " | ".
    pub open spec fn spec_describe(self) -> Seq<char> {
        match amiga_exact_name(self.0, 0) {
            Some(name) => name@,
            None => join_names(amiga_active_names(self.0, 13)),
        }
    }

    pub fn describe(&self) -> (r: String)
        ensures
            r@ == self.spec_describe(),
    {
        let table = amiga_flag_list();
        let mut i: usize = 0;
        while i < table.len()
            invariant
                table@ == amiga_flag_table(),
                i <= table@.len(),
                amiga_exact_name(self.0, 0) == amiga_exact_name(self.0, i as int),
            decreases table@.len() - i,
        {
            if table[i].0 == self.0 {
                return String::from_str(table[i].1);
            }
            i = i + 1;
        }
        let mut out = String::new();
        let ghost mut names: Seq<&'static str> = Seq::empty();
        let mut first = true;
        let mut i: usize = 0;
        while i < table.len()
            invariant
                table@ == amiga_flag_table(),
                i <= table@.len(),
                names == amiga_active_names(self.0, i as int),
                first == (names.len() == 0),
                out@ == join_names(names),
            decreases table@.len() - i,
        {
            let (bits, name) = table[i];
            if self.0 & bits == bits {
                push_name(&mut out, Ghost(names), first, name);
                first = false;
                proof {
                    names = names.push(name);
                }
            }
            i = i + 1;
        }
        out
    }
}

/// Flags of a colour-cycling range ("CRNG" and "DRNG").
#[derive(Clone, Copy, Debug, PartialEq, Eq, Structural)]
pub struct RangeFlags(pub i16);

impl RangeFlags {
    pub const NONE: i16 = 0;
    pub const ACTIVE: i16 = 0x1;
    pub const REVERSE: i16 = 0x2;
    pub const DP_RESERVED: i16 = 0x4;
    pub const FADE: i16 = 0x8;

    pub open spec fn spec_contains(self, mask: i16) -> bool {
        self.0 & mask == mask
    }

    /// Whether every bit of `mask` is set.
    pub fn contains(&self, mask: i16) -> (r: bool)
        ensures
            r == self.spec_contains(mask),
    {
        self.0 & mask == mask
    }
}

/// The named range flags, in the order they are listed.
pub open spec fn range_flag_table() -> Seq<(i16, &'static str)> {
    seq![
        (RangeFlags::NONE, "None"),
        (RangeFlags::ACTIVE, "Active"),
        (RangeFlags::REVERSE, "Reverse"),
        (RangeFlags::DP_RESERVED, "RNG_DP_RESERVED"),
        (RangeFlags::FADE, "Fade"),
    ]
}

/// The names of the first `n` listed flags that `v` contains, in order
/// (`None`, being no bits, is contained in every value).
pub open spec fn range_active_names(v: i16, n: int) -> Seq<&'static str>
    decreases n,
{
    if n <= 0 {
        Seq::empty()
    } else {
        let prev = range_active_names(v, n - 1);
        let e = range_flag_table()[n - 1];
        if v & e.0 == e.0 { prev.push(e.1) } else { prev }
    }
}

/// The name of the first listed flag equal to `v`, searching from `i`.
pub open spec fn range_exact_name(v: i16, i: int) -> Option<&'static str>
    decreases range_flag_table().len() - i,
{
    if i < 0 || i >= range_flag_table().len() {
        None
    } else if range_flag_table()[i].0 == v {
        Some(range_flag_table()[i].1)
    } else {
        range_exact_name(v, i + 1)
    }
}

fn range_flag_list() -> (r: Vec<(i16, &'static str)>)
    ensures
        r@ == range_flag_table(),
{
    let mut r: Vec<(i16, &'static str)> = Vec::new();
    r.push((RangeFlags::NONE, "None"));
    r.push((RangeFlags::ACTIVE, "Active"));
    r.push((RangeFlags::REVERSE, "Reverse"));
    r.push((RangeFlags::DP_RESERVED, "RNG_DP_RESERVED"));
    r.push((RangeFlags::FADE, "Fade"));
    proof {
        assert(r@ =~= range_flag_table());
    }
    r
}

impl RangeFlags {
    /// The text shown for the flags: the name of the listed flag equal to
    /// the whole value, else the names of the listed flags it contains,
    /// joined by " | ".
    pub open spec fn spec_describe(self) -> Seq<char> {
        match range_exact_name(self.0, 0) {
            Some(name) => name@,
            None => join_names(range_active_names(self.0, 5)),
        }
    }

    pub fn describe(&self) -> (r: String)
        ensures
            r@ == self.spec_describe(),
    {
        let table = range_flag_list();
        let mut i: usize = 0;
        while i < table.len()
            invariant
                table@ == range_flag_table(),
                i <= table@.len(),
                range_exact_name(self.0, 0) == range_exact_name(self.0, i as int),
            decreases table@.len() - i,
        {
            if table[i].0 == self.0 {
                return String::from_str(table[i].1);
            }
            i = i + 1;
        }
        let mut out = String::new();
        let ghost mut names: Seq<&'static str> = Seq::empty();
        let mut first = true;
        let mut i: usize = 0;
        while i < table.len()
            invariant
                table@ == range_flag_table(),
                i <= table@.len(),
                names == range_active_names(self.0, i as int),
                first == (names.len() == 0),
                out@ == join_names(names),
            decreases table@.len() - i,
        {
            let (bits, name) = table[i];
            if self.0 & bits == bits {
                push_name(&mut out, Ghost(names), first, name);
                first = false;
                proof {
                    names = names.push(name);
                }
            }
            i = i + 1;
        }
        out
    }
}

} // verus!
