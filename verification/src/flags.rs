use vstd::prelude::*;

verus! {

/// Environment flag: no options.
pub const MDBX_ENV_DEFAULTS: libc::c_uint = 0;

/// Environment flag: the path names a file, not a directory.
pub const MDBX_NOSUBDIR: libc::c_uint = 0x4000;

/// Environment flag: no system flush after a commit.
pub const MDBX_SAFE_NOSYNC: libc::c_uint = 0x10000;

/// Environment flag: read-only.
pub const MDBX_RDONLY: libc::c_uint = 0x20000;

/// Environment flag: no flush of the meta page after a commit.
pub const MDBX_NOMETASYNC: libc::c_uint = 0x40000;

/// Environment flag: the memory map is writable.
pub const MDBX_WRITEMAP: libc::c_uint = 0x80000;

/// Environment flag: no flush at all, the database may be lost in a crash.
pub const MDBX_UTTERLY_NOSYNC: libc::c_uint = 0x110000;

/// Environment flag: reader slots belong to transactions, not to threads.
pub const MDBX_NOTLS: libc::c_uint = 0x200000;

/// Environment flag: exclusive use.
pub const MDBX_EXCLUSIVE: libc::c_uint = 0x400000;

/// Environment flag: no read-ahead.
pub const MDBX_NORDAHEAD: libc::c_uint = 0x800000;

/// Environment flag: memory is not cleared before it is written to a page.
pub const MDBX_NOMEMINIT: libc::c_uint = 0x1000000;

/// Environment flag: free pages are merged while the freelist is read.
pub const MDBX_COALESCE: libc::c_uint = 0x2000000;

/// Environment flag: the pages freed last are used again first.
pub const MDBX_LIFORECLAIM: libc::c_uint = 0x4000000;

/// Environment flag: take over the options of whoever else has the environment open.
pub const MDBX_ACCEDE: libc::c_uint = 0x40000000;

/// When committed data reaches the disk.
#[derive(Clone, Copy, Debug, PartialEq, Eq, Structural)]
pub enum SyncMode {
    /// At the end of each commit.
    Durable,
    /// At the end of each commit, but for the meta page.
    NoMetaSync,
    /// At some later time; a crash undoes the last commits.
    SafeNoSync,
    /// At some later time; a crash may lose the database.
    UtterlyNoSync,
}

impl Default for SyncMode {
    fn default() -> (m: Self)
        ensures
            m == SyncMode::Durable,
    {
        SyncMode::Durable
    }
}

/// Whether an environment can be written to.
#[derive(Clone, Copy, Debug, PartialEq, Eq, Structural)]
pub enum Mode {
    ReadOnly,
    ReadWrite { sync_mode: SyncMode },
}

impl Default for Mode {
    fn default() -> (m: Self)
        ensures
            m == (Mode::ReadWrite { sync_mode: SyncMode::Durable }),
    {
        Mode::ReadWrite { sync_mode: SyncMode::default() }
    }
}

/// Options that an environment is opened with.
#[derive(Clone, Copy, Debug, PartialEq, Eq, Structural)]
pub struct EnvironmentFlags {
    pub no_sub_dir: bool,
    pub exclusive: bool,
    pub accede: bool,
    pub mode: Mode,
    pub no_rdahead: bool,
    pub no_meminit: bool,
    pub coalesce: bool,
    pub liforeclaim: bool,
}

/// The options that an environment has when none was chosen: read-write, durable, nothing else.
pub open spec fn default_flags() -> EnvironmentFlags {
    EnvironmentFlags {
        no_sub_dir: false,
        exclusive: false,
        accede: false,
        mode: Mode::ReadWrite { sync_mode: SyncMode::Durable },
        no_rdahead: false,
        no_meminit: false,
        coalesce: false,
        liforeclaim: false,
    }
}

impl Default for EnvironmentFlags {
    fn default() -> (f: Self)
        ensures
            f == default_flags(),
            f.mode == (Mode::ReadWrite { sync_mode: SyncMode::Durable }),
            !f.no_sub_dir && !f.exclusive && !f.accede && !f.no_rdahead && !f.no_meminit,
            !f.coalesce && !f.liforeclaim,
    {
        EnvironmentFlags {
            no_sub_dir: false,
            exclusive: false,
            accede: false,
            mode: Mode::default(),
            no_rdahead: false,
            no_meminit: false,
            coalesce: false,
            liforeclaim: false,
        }
    }
}

impl From<Mode> for EnvironmentFlags {
    fn from(mode: Mode) -> (f: Self) {
        EnvironmentFlags { mode, ..EnvironmentFlags::default() }
    }
}

impl vstd::std_specs::convert::FromSpecImpl<Mode> for EnvironmentFlags {
    open spec fn obeys_from_spec() -> bool {
        true
    }

    open spec fn from_spec(mode: Mode) -> Self {
        EnvironmentFlags { mode, ..default_flags() }
    }
}

/// `flag` where an option is chosen, no bits where it is not.
pub open spec fn chosen(option: bool, flag: libc::c_uint) -> libc::c_uint {
    if option {
        flag
    } else {
        0
    }
}

impl Mode {
    /// The bits that the mode contributes to the flag word.
    pub open spec fn word(self) -> libc::c_uint {
        match self {
            Mode::ReadOnly => MDBX_RDONLY,
            Mode::ReadWrite { sync_mode: SyncMode::Durable } => MDBX_ENV_DEFAULTS,
            Mode::ReadWrite { sync_mode: SyncMode::NoMetaSync } => MDBX_NOMETASYNC,
            Mode::ReadWrite { sync_mode: SyncMode::SafeNoSync } => MDBX_SAFE_NOSYNC,
            Mode::ReadWrite { sync_mode: SyncMode::UtterlyNoSync } => MDBX_UTTERLY_NOSYNC,
        }
    }
}

impl EnvironmentFlags {
    /// The flag word: the bits of the chosen options together with the mode's. Reader slots always
    /// belong to transactions.
    pub open spec fn word(self) -> libc::c_uint {
        chosen(self.no_sub_dir, MDBX_NOSUBDIR) | chosen(self.exclusive, MDBX_EXCLUSIVE) | chosen(
            self.accede,
            MDBX_ACCEDE,
        ) | self.mode.word() | chosen(self.no_rdahead, MDBX_NORDAHEAD) | chosen(
            self.no_meminit,
            MDBX_NOMEMINIT,
        ) | chosen(self.coalesce, MDBX_COALESCE) | chosen(self.liforeclaim, MDBX_LIFORECLAIM)
            | MDBX_NOTLS
    }

    /// Packs the options into the flag word that an environment is opened with.
    pub fn make_flags(&self) -> (flags: libc::c_uint)
        ensures
            flags == self.word(),
    {
        let mut flags: libc::c_uint = if self.no_sub_dir {
            MDBX_NOSUBDIR
        } else {
            0
        };
        flags = flags | if self.exclusive {
            MDBX_EXCLUSIVE
        } else {
            0
        };
        flags = flags | if self.accede {
            MDBX_ACCEDE
        } else {
            0
        };
        flags = flags | match self.mode {
            Mode::ReadOnly => MDBX_RDONLY,
            Mode::ReadWrite { sync_mode } => match sync_mode {
                SyncMode::Durable => MDBX_ENV_DEFAULTS,
                SyncMode::NoMetaSync => MDBX_NOMETASYNC,
                SyncMode::SafeNoSync => MDBX_SAFE_NOSYNC,
                SyncMode::UtterlyNoSync => MDBX_UTTERLY_NOSYNC,
            },
        };
        flags = flags | if self.no_rdahead {
            MDBX_NORDAHEAD
        } else {
            0
        };
        flags = flags | if self.no_meminit {
            MDBX_NOMEMINIT
        } else {
            0
        };
        flags = flags | if self.coalesce {
            MDBX_COALESCE
        } else {
            0
        };
        flags = flags | if self.liforeclaim {
            MDBX_LIFORECLAIM
        } else {
            0
        };
        flags | MDBX_NOTLS
    }
}

/// The flag word has no bit for the kind of the memory map, and the bit for read-only exactly where
/// the mode is read-only.
pub(crate) proof fn lemma_word_bits(f: EnvironmentFlags)
    ensures
        f.word() & MDBX_WRITEMAP == 0,
        f.word() & MDBX_RDONLY == chosen(f.mode is ReadOnly, MDBX_RDONLY),
{
    let a = chosen(f.no_sub_dir, MDBX_NOSUBDIR);
    let b = chosen(f.exclusive, MDBX_EXCLUSIVE);
    let c = chosen(f.accede, MDBX_ACCEDE);
    let m = f.mode.word();
    let d = chosen(f.no_rdahead, MDBX_NORDAHEAD);
    let e = chosen(f.no_meminit, MDBX_NOMEMINIT);
    let g = chosen(f.coalesce, MDBX_COALESCE);
    let h = chosen(f.liforeclaim, MDBX_LIFORECLAIM);
    let w = a | b | c | m | d | e | g | h | 0x200000u32;
    assert(w & 0x80000 == 0 && w & 0x20000 == if m == 0x20000 {
        0x20000u32
    } else {
        0
    }) by (bit_vector)
        requires
            w == a | b | c | m | d | e | g | h | 0x200000u32,
            a == 0 || a == 0x4000,
            b == 0 || b == 0x400000,
            c == 0 || c == 0x40000000,
            m == 0x20000 || m == 0 || m == 0x40000 || m == 0x10000 || m == 0x110000,
            d == 0 || d == 0x800000,
            e == 0 || e == 0x1000000,
            g == 0 || g == 0x2000000,
            h == 0 || h == 0x4000000,
    ;
}

/// Nothing is chosen by default but a durable read-write mode, and choosing a mode chooses nothing
/// else.
pub proof fn law_default_flags(mode: Mode)
    ensures
        ({
            let f = default_flags();
            &&& f.mode == (Mode::ReadWrite { sync_mode: SyncMode::Durable })
            &&& !f.no_sub_dir && !f.exclusive && !f.accede && !f.no_rdahead && !f.no_meminit
            &&& !f.coalesce && !f.liforeclaim
        }),
        ({
            let f = <EnvironmentFlags as vstd::std_specs::convert::FromSpec<Mode>>::from_spec(mode);
            &&& f.mode == mode
            &&& !f.no_sub_dir && !f.exclusive && !f.accede && !f.no_rdahead && !f.no_meminit
            &&& !f.coalesce && !f.liforeclaim
        }),
{
}

/// Each option has a bit of the flag word to itself, which is set exactly where the option is
/// chosen. The mode has four bits, one further bit is always set, and no other one ever is.
pub proof fn law_flag_word_bit_by_bit(f: EnvironmentFlags)
    ensures
        f.word() & 0x4000 != 0 <==> f.no_sub_dir,
        f.word() & 0x400000 != 0 <==> f.exclusive,
        f.word() & 0x40000000 != 0 <==> f.accede,
        f.word() & 0x800000 != 0 <==> f.no_rdahead,
        f.word() & 0x1000000 != 0 <==> f.no_meminit,
        f.word() & 0x2000000 != 0 <==> f.coalesce,
        f.word() & 0x4000000 != 0 <==> f.liforeclaim,
        f.word() & 0x20000 != 0 <==> f.mode is ReadOnly,
        f.word() & 0x40000 != 0 <==> f.mode == (Mode::ReadWrite {
            sync_mode: SyncMode::NoMetaSync,
        }),
        f.word() & 0x10000 != 0 <==> f.mode == (Mode::ReadWrite {
            sync_mode: SyncMode::SafeNoSync,
        }) || f.mode == (Mode::ReadWrite { sync_mode: SyncMode::UtterlyNoSync }),
        f.word() & 0x100000 != 0 <==> f.mode == (Mode::ReadWrite {
            sync_mode: SyncMode::UtterlyNoSync,
        }),
        f.word() & 0x200000 != 0,
        f.word() & !0x47f74000u32 == 0,
{
    lemma_flag_word_decodes(f);
    let w = f.word();
    let m = f.mode.word();
    assert(w & 0x170000 == m ==> w & 0x20000 == m & 0x20000 && w & 0x40000 == m & 0x40000 && w
        & 0x10000 == m & 0x10000 && w & 0x100000 == m & 0x100000) by (bit_vector);
    assert(0u32 & 0x20000 == 0 && 0u32 & 0x40000 == 0 && 0u32 & 0x10000 == 0 && 0u32 & 0x100000
        == 0 && 0x20000u32 & 0x20000 != 0 && 0x20000u32 & 0x40000 == 0 && 0x20000u32 & 0x10000 == 0
        && 0x20000u32 & 0x100000 == 0 && 0x40000u32 & 0x20000 == 0 && 0x40000u32 & 0x40000 != 0
        && 0x40000u32 & 0x10000 == 0 && 0x40000u32 & 0x100000 == 0 && 0x10000u32 & 0x20000 == 0
        && 0x10000u32 & 0x40000 == 0 && 0x10000u32 & 0x10000 != 0 && 0x10000u32 & 0x100000 == 0
        && 0x110000u32 & 0x20000 == 0 && 0x110000u32 & 0x40000 == 0 && 0x110000u32 & 0x10000 != 0
        && 0x110000u32 & 0x100000 != 0) by (bit_vector);
}

/// Different options give different flag words: nothing that was chosen is lost on the way.
pub proof fn law_flag_word_keeps_every_option(a: EnvironmentFlags, b: EnvironmentFlags)
    requires
        a.word() == b.word(),
    ensures
        a == b,
{
    lemma_flag_word_decodes(a);
    lemma_flag_word_decodes(b);
}

/// Each option can be read off the flag word, and so can the mode.
proof fn lemma_flag_word_decodes(f: EnvironmentFlags)
    ensures
        f.no_sub_dir <==> f.word() & MDBX_NOSUBDIR != 0,
        f.exclusive <==> f.word() & MDBX_EXCLUSIVE != 0,
        f.accede <==> f.word() & MDBX_ACCEDE != 0,
        f.mode.word() == f.word() & 0x170000,
        f.no_rdahead <==> f.word() & MDBX_NORDAHEAD != 0,
        f.no_meminit <==> f.word() & MDBX_NOMEMINIT != 0,
        f.coalesce <==> f.word() & MDBX_COALESCE != 0,
        f.liforeclaim <==> f.word() & MDBX_LIFORECLAIM != 0,
        f.word() & 0x200000 != 0,
        f.word() & !0x47f74000u32 == 0,
{
    let a = chosen(f.no_sub_dir, MDBX_NOSUBDIR);
    let b = chosen(f.exclusive, MDBX_EXCLUSIVE);
    let c = chosen(f.accede, MDBX_ACCEDE);
    let m = f.mode.word();
    let d = chosen(f.no_rdahead, MDBX_NORDAHEAD);
    let e = chosen(f.no_meminit, MDBX_NOMEMINIT);
    let g = chosen(f.coalesce, MDBX_COALESCE);
    let h = chosen(f.liforeclaim, MDBX_LIFORECLAIM);
    let w = a | b | c | m | d | e | g | h | 0x200000u32;
    assert(w & 0x4000 == a && w & 0x400000 == b && w & 0x40000000 == c && w & 0x170000 == m && w
        & 0x800000 == d && w & 0x1000000 == e && w & 0x2000000 == g && w & 0x4000000 == h && w
        & 0x200000 != 0 && w & !0x47f74000u32 == 0) by (bit_vector)
        requires
            w == a | b | c | m | d | e | g | h | 0x200000u32,
            a == 0 || a == 0x4000,
            b == 0 || b == 0x400000,
            c == 0 || c == 0x40000000,
            m == 0x20000 || m == 0 || m == 0x40000 || m == 0x10000 || m == 0x110000,
            d == 0 || d == 0x800000,
            e == 0 || e == 0x1000000,
            g == 0 || g == 0x2000000,
            h == 0 || h == 0x4000000,
    ;
}

} // verus!
