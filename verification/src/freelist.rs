use crate::environment::{EnvironmentKind, GenericEnvironment};
use crate::error::Error;
use byteorder::{ByteOrder, NativeEndian};
use vstd::endian::{endianness, Endian};
use vstd::prelude::*;

verus! {

/// What reading one record of the freelist database gave: its value, or why there is none.
pub type Record = Result<Vec<u8>, Error>;

/// Number of bytes in a machine word.
pub open spec fn word_len() -> int {
    usize::BITS as int / 8
}

/// The number that a sequence of bytes stands for.
pub open spec fn word_value(order: Endian, s: Seq<u8>) -> nat
    decreases s.len(),
{
    if s.len() == 0 {
        0
    } else {
        match order {
            Endian::Little => s.first() as nat + 256 * word_value(order, s.drop_first()),
            Endian::Big => 256 * word_value(order, s.drop_last()) + s.last() as nat,
        }
    }
}

/// Why a record cannot be counted: it could not be read, or is too short to hold a count.
pub open spec fn fault(record: Record) -> Option<Error> {
    match record {
        Ok(value) => if value@.len() < word_len() {
            Some(Error::Corrupted)
        } else {
            None
        },
        Err(error) => Some(error),
    }
}

/// The number of pages that a record lists: a machine word at the beginning of its value, in the
/// byte order of the machine.
pub open spec fn count(record: Record) -> nat {
    word_value(endianness(), record->Ok_0@.take(word_len()))
}

/// Whether all records can be counted.
pub open spec fn sound(records: Seq<Record>) -> bool {
    forall|i: int| 0 <= i < records.len() ==> fault(#[trigger] records[i]) is None
}

/// The number of pages that all records list.
pub open spec fn total(records: Seq<Record>) -> nat
    decreases records.len(),
{
    if records.len() == 0 {
        0
    } else {
        total(records.drop_last()) + count(records.last())
    }
}

/// Whether the first `n` records list more pages than can be counted.
pub open spec fn overflows_at(records: Seq<Record>, n: int) -> bool {
    &&& 0 <= n <= records.len()
    &&& sound(records.take(n))
    &&& total(records.take(n)) > usize::MAX
}

/// Whether record `n` is the first that cannot be counted, for the reason `error`.
pub open spec fn stops_at(records: Seq<Record>, n: int, error: Error) -> bool {
    &&& 0 <= n < records.len()
    &&& sound(records.take(n))
    &&& total(records.take(n)) <= usize::MAX
    &&& fault(records[n]) == Some(error)
}

/// `NativeEndian::read_u64` of the crate byteorder: the first eight bytes of the buffer, read as a
/// number in the byte order of the machine. It panics on a shorter buffer.
#[verifier::external_body]
fn read_u64(buf: &[u8]) -> (r: u64)
    requires
        buf@.len() >= 8,
    ensures
        r == word_value(endianness(), buf@.take(8)),
{
    NativeEndian::read_u64(buf)
}

/// `NativeEndian::read_u32` of the crate byteorder: the first four bytes of the buffer, read as a
/// number in the byte order of the machine. It panics on a shorter buffer.
#[verifier::external_body]
fn read_u32(buf: &[u8]) -> (r: u32)
    requires
        buf@.len() >= 4,
    ensures
        r == word_value(endianness(), buf@.take(4)),
{
    NativeEndian::read_u32(buf)
}

/// The number of pages that a record lists.
fn read_count(value: &Vec<u8>) -> (r: Result<usize, Error>)
    ensures
        match r {
            Ok(n) => value@.len() >= word_len() && n == word_value(
                endianness(),
                value@.take(word_len()),
            ),
            Err(e) => value@.len() < word_len() && e == Error::Corrupted,
        },
{
    let len: usize = core::mem::size_of::<usize>();
    if value.len() < len {
        return Err(Error::Corrupted);
    }
    let s = vstd::slice::slice_subrange(value.as_slice(), 0, len);
    assert(s@ =~= value@.take(word_len()));
    assert(s@.take(word_len()) =~= s@);
    if usize::BITS == 64 {
        Ok(read_u64(s) as usize)
    } else {
        Ok(read_u32(s) as usize)
    }
}

proof fn lemma_sound_prefix(records: Seq<Record>, n: int)
    requires
        0 <= n < records.len(),
        sound(records.take(n)),
    ensures
        records.take(n + 1).drop_last() == records.take(n),
        records.take(n + 1).last() == records[n],
        total(records.take(n + 1)) == total(records.take(n)) + count(records[n]),
        sound(records.take(n + 1)) <==> fault(records[n]) is None,
{
    let next = records.take(n + 1);
    assert(next.drop_last() =~= records.take(n));
    assert(next[n] == records[n]);
    if fault(records[n]) is None {
        assert forall|i: int| 0 <= i < next.len() implies fault(#[trigger] next[i]) is None by {
            if i < n {
                assert(records.take(n)[i] == next[i]);
            }
        }
    }
}

/// The more records, the more pages.
proof fn lemma_total_grows(records: Seq<Record>, m: int, n: int)
    requires
        0 <= m <= n <= records.len(),
    ensures
        total(records.take(m)) <= total(records.take(n)),
    decreases n - m,
{
    if m < n {
        lemma_total_grows(records, m, n - 1);
        assert(records.take(n).drop_last() =~= records.take(n - 1));
    }
}

proof fn lemma_fault_excludes(records: Seq<Record>, n: int, m: int)
    requires
        0 <= n < m <= records.len(),
        fault(records[n]) is Some,
    ensures
        !sound(records.take(m)),
{
    assert(records.take(m)[n] == records[n]);
}

/// Counting ends in one way only: with the total, with a total that is too large, or at the first
/// record that cannot be counted.
pub proof fn law_freelist_outcomes_exclude(
    records: Seq<Record>,
    n: int,
    m: int,
    e: Error,
    f: Error,
)
    ensures
        !(sound(records) && total(records) <= usize::MAX && overflows_at(records, n)),
        !(sound(records) && stops_at(records, n, e)),
        !(overflows_at(records, n) && stops_at(records, m, e)),
        stops_at(records, n, e) && stops_at(records, m, f) ==> n == m && e == f,
{
    assert(records.take(records.len() as int) =~= records);
    if overflows_at(records, n) {
        lemma_total_grows(records, n, records.len() as int);
        if stops_at(records, m, e) {
            if m < n {
                lemma_fault_excludes(records, m, n);
            } else {
                lemma_total_grows(records, n, m);
            }
        }
    }
    if stops_at(records, n, e) && stops_at(records, m, f) {
        if n < m {
            lemma_fault_excludes(records, n, m);
        }
        if m < n {
            lemma_fault_excludes(records, m, n);
        }
    }
}

proof fn lemma_overflowed(records: Seq<Record>, n: int)
    requires
        overflows_at(records, n),
    ensures
        exists|n: int| overflows_at(records, n),
        !(sound(records) && total(records) <= usize::MAX),
        forall|m: int, e: Error| !stops_at(records, m, e),
{
    law_freelist_outcomes_exclude(records, n, n, Error::Busy, Error::Busy);
    assert forall|m: int, e: Error| !stops_at(records, m, e) by {
        law_freelist_outcomes_exclude(records, n, m, e, e);
    }
}

proof fn lemma_stopped(records: Seq<Record>, n: int, e: Error)
    requires
        stops_at(records, n, e),
    ensures
        exists|n: int| stops_at(records, n, e),
        !sound(records),
        forall|m: int| !overflows_at(records, m),
        forall|m: int, f: Error| stops_at(records, m, f) ==> f == e,
{
    law_freelist_outcomes_exclude(records, n, n, e, e);
    assert forall|m: int| !overflows_at(records, m) by {
        law_freelist_outcomes_exclude(records, m, n, e, e);
    }
    assert forall|m: int, f: Error| stops_at(records, m, f) implies f == e by {
        law_freelist_outcomes_exclude(records, n, m, e, f);
    }
}

/// Reading the freelist in parts and adding up gives what reading it as a whole gives.
pub proof fn law_freelist_adds_up(a: Seq<Record>, b: Seq<Record>)
    ensures
        total(a + b) == total(a) + total(b),
    decreases b.len(),
{
    if b.len() == 0 {
        assert(a + b =~= a);
    } else {
        law_freelist_adds_up(a, b.drop_last());
        assert((a + b).drop_last() =~= a + b.drop_last());
        assert((a + b).last() == b.last());
    }
}

/// The number that a machine word stands for, byte by byte: the first byte weighs least where the
/// machine is little-endian and most where it is big-endian.
pub proof fn law_word_value_digit_by_digit(s: Seq<u8>)
    ensures
        s.len() == 4 ==> word_value(Endian::Little, s) == s[0] + 0x100 * s[1] + 0x1_0000 * s[2]
            + 0x100_0000 * s[3],
        s.len() == 4 ==> word_value(Endian::Big, s) == s[3] + 0x100 * s[2] + 0x1_0000 * s[1]
            + 0x100_0000 * s[0],
        s.len() == 8 ==> word_value(Endian::Little, s) == s[0] + 0x100 * s[1] + 0x1_0000 * s[2]
            + 0x100_0000 * s[3] + 0x1_0000_0000 * s[4] + 0x100_0000_0000 * s[5]
            + 0x1_0000_0000_0000 * s[6] + 0x100_0000_0000_0000 * s[7],
        s.len() == 8 ==> word_value(Endian::Big, s) == s[7] + 0x100 * s[6] + 0x1_0000 * s[5]
            + 0x100_0000 * s[4] + 0x1_0000_0000 * s[3] + 0x100_0000_0000 * s[2]
            + 0x1_0000_0000_0000 * s[1] + 0x100_0000_0000_0000 * s[0],
{
    reveal_with_fuel(word_value, 9);
}

/// A record that could be read is counted by its first machine word alone, whatever follows it: with
/// eight bytes to a word, the number that the first eight bytes of the value stand for, with four
/// bytes, that of the first four.
pub proof fn law_freelist_count_is_the_first_word(value: Vec<u8>)
    requires
        value@.len() * 8 >= usize::BITS,
    ensures
        total(seq![Ok::<Vec<u8>, Error>(value)]) == count(Ok(value)),
        ({
            let s = value@;
            let n = total(seq![Ok::<Vec<u8>, Error>(value)]);
            &&& usize::BITS == 64 && endianness() is Little ==> n == s[0] + 0x100 * s[1] + 0x1_0000
                * s[2] + 0x100_0000 * s[3] + 0x1_0000_0000 * s[4] + 0x100_0000_0000 * s[5]
                + 0x1_0000_0000_0000 * s[6] + 0x100_0000_0000_0000 * s[7]
            &&& usize::BITS == 64 && endianness() is Big ==> n == s[7] + 0x100 * s[6] + 0x1_0000
                * s[5] + 0x100_0000 * s[4] + 0x1_0000_0000 * s[3] + 0x100_0000_0000 * s[2]
                + 0x1_0000_0000_0000 * s[1] + 0x100_0000_0000_0000 * s[0]
            &&& usize::BITS == 32 && endianness() is Little ==> n == s[0] + 0x100 * s[1] + 0x1_0000
                * s[2] + 0x100_0000 * s[3]
            &&& usize::BITS == 32 && endianness() is Big ==> n == s[3] + 0x100 * s[2] + 0x1_0000
                * s[1] + 0x100_0000 * s[0]
        }),
{
    let one = seq![Ok::<Vec<u8>, Error>(value)];
    assert(one.drop_last() =~= Seq::empty());
    assert(total(one.drop_last()) == 0);
    law_word_value_digit_by_digit(value@.take(word_len()));
}

/// What follows the counts does not matter: two freelists whose records agree in their first machine
/// words list as many pages.
pub proof fn law_freelist_ignores_what_follows_the_count(a: Seq<Record>, b: Seq<Record>)
    requires
        a.len() == b.len(),
        forall|i: int|
            0 <= i < a.len() ==> (#[trigger] a[i]) is Ok && a[i]->Ok_0@.len() * 8 >= usize::BITS,
        forall|i: int|
            0 <= i < b.len() ==> (#[trigger] b[i]) is Ok && b[i]->Ok_0@.len() * 8 >= usize::BITS,
        forall|i: int, j: int|
            0 <= i < a.len() && 0 <= j * 8 < usize::BITS ==> #[trigger] a[i]->Ok_0@[j]
                == b[i]->Ok_0@[j],
    ensures
        sound(a) && sound(b),
        total(a) == total(b),
    decreases a.len(),
{
    if a.len() > 0 {
        let n = a.len() - 1;
        law_freelist_ignores_what_follows_the_count(a.drop_last(), b.drop_last());
        let x = a[n]->Ok_0@.take(word_len());
        let y = b[n]->Ok_0@.take(word_len());
        assert forall|j: int| 0 <= j < word_len() implies x[j] == y[j] by {
            assert(a[n]->Ok_0@[j] == b[n]->Ok_0@[j]);
        }
        assert(x =~= y);
    }
}

/// The freelist is counted up to the first record that could not be read, whose error is reported,
/// or that is shorter than a machine word, which is reported as `Corrupted`; and only up to where
/// the total no longer fits in a machine word.
pub proof fn law_freelist_stops_at_the_first_fault(records: Seq<Record>, n: int, e: Error)
    ensures
        sound(records) <==> forall|i: int|
            0 <= i < records.len() ==> (#[trigger] records[i]) is Ok && records[i]->Ok_0@.len() * 8
                >= usize::BITS,
        stops_at(records, n, e) <==> {
            &&& 0 <= n < records.len()
            &&& forall|i: int|
                0 <= i < n ==> (#[trigger] records[i]) is Ok && records[i]->Ok_0@.len() * 8
                    >= usize::BITS
            &&& total(records.take(n)) <= usize::MAX
            &&& match records[n] {
                Ok(value) => value@.len() * 8 < usize::BITS && e == Error::Corrupted,
                Err(error) => e == error,
            }
        },
        overflows_at(records, n) <==> {
            &&& 0 <= n <= records.len()
            &&& forall|i: int|
                0 <= i < n ==> (#[trigger] records[i]) is Ok && records[i]->Ok_0@.len() * 8
                    >= usize::BITS
            &&& total(records.take(n)) > usize::MAX
        },
{
    assert forall|i: int| 0 <= i < records.len() implies (fault(#[trigger] records[i]) is None
        <==> records[i] is Ok && records[i]->Ok_0@.len() * 8 >= usize::BITS) by {}
    if 0 <= n <= records.len() {
        let t = records.take(n);
        assert(forall|i: int| 0 <= i < n ==> #[trigger] t[i] == records[i]);
        assert(forall|i: int| 0 <= i < n ==> #[trigger] records[i] == t[i]);
    }
}

impl<E> GenericEnvironment<E> where E: EnvironmentKind {
    /// Retrieves the total number of pages on the freelist, from the records of the freelist
    /// database in the order in which a read transaction traverses them. `Ok(None)` says that the
    /// total does not fit in a machine word.
    ///
    /// Along with [`info`](Self::info), this can be used to calculate the exact number
    /// of used pages as well as free pages in this environment.
    ///
    /// Note: all the freelists are stored in the designated database 0 in each environment,
    /// and the freelist count is stored at the beginning of the value as a machine word
    /// in the native byte order.
    pub fn freelist(&self, records: &Vec<Record>) -> (r: Result<Option<usize>, Error>)
        ensures
            r is Ok && r->Ok_0 is Some <==> sound(records@) && total(records@) <= usize::MAX,
            r matches Ok(Some(pages)) ==> pages == total(records@),
            r == Ok::<Option<usize>, Error>(None) <==> exists|n: int| overflows_at(records@, n),
            forall|e: Error|
                r == Err::<Option<usize>, Error>(e) <==> exists|n: int| stops_at(records@, n, e),
            records@.len() == 0 ==> r == Ok::<Option<usize>, Error>(Some(0)),
            records@.len() > 0 && records@[0] is Err ==> r is Err && r->Err_0
                == records@[0]->Err_0,
            records@.len() > 0 && records@[0] is Ok && records@[0]->Ok_0@.len() * 8 < usize::BITS
                ==> r == Err::<Option<usize>, Error>(Error::Corrupted),
            records@.len() == 1 && records@[0] is Ok && records@[0]->Ok_0@.len() * 8 >= usize::BITS
                ==> r is Ok && r->Ok_0 is Some && r->Ok_0->Some_0 == word_value(
                endianness(),
                records@[0]->Ok_0@.take(usize::BITS as int / 8),
            ),
    {
        let mut freelist: usize = 0;
        let mut i: usize = 0;
        assert(records@.take(0) =~= Seq::empty());
        while i < records.len()
            invariant
                i <= records@.len(),
                sound(records@.take(i as int)),
                freelist == total(records@.take(i as int)),
                i > 0 ==> fault(records@[0]) is None,
            decreases records@.len() - i,
        {
            proof {
                lemma_sound_prefix(records@, i as int);
            }
            let read = match &records[i] {
                Ok(value) => read_count(value),
                Err(e) => Err(*e),
            };
            match read {
                Ok(pages) => {
                    match freelist.checked_add(pages) {
                        Some(sum) => {
                            freelist = sum;
                        },
                        None => {
                            proof {
                                lemma_overflowed(records@, i + 1);
                            }
                            return Ok(None);
                        },
                    }
                },
                Err(e) => {
                    proof {
                        lemma_stopped(records@, i as int, e);
                    }
                    return Err(e);
                },
            }
            i = i + 1;
        }
        proof {
            assert(records@.take(i as int) =~= records@);
            if records@.len() == 1 {
                assert(records@.drop_last() =~= Seq::empty());
                assert(total(records@.drop_last()) == 0);
            }
            assert forall|n: int| !overflows_at(records@, n) by {
                law_freelist_outcomes_exclude(records@, n, n, Error::Busy, Error::Busy);
            }
            assert forall|n: int, e: Error| !stops_at(records@, n, e) by {
                law_freelist_outcomes_exclude(records@, n, n, e, e);
            }
        }
        Ok(Some(freelist))
    }
}

} // verus!
