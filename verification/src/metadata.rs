//! Descriptive metadata of assets.
//!
//! The metadata registry stores, for an asset identity, a record with the
//! asset it describes and its human-readable name, symbol and URI. The
//! engine reads such records when it creates a derivative: the derivative's
//! name prefixes the original's with "Liquid ", its symbol prefixes the
//! original's with "li", each trimmed of trailing ASCII whitespace and
//! truncated to the registry's fixed byte budgets (32 bytes for a name, 10
//! for a symbol). Names, symbols and URIs are carried as byte strings, so
//! truncation is exact at the byte boundary.

use vstd::prelude::*;

use crate::address::Address;

verus! {

/// What the registry's record deserializer returns for the given record
/// bytes: the described asset and the name, symbol and URI byte strings, or
/// nothing when the bytes are empty or not a well-formed record.
pub uninterp spec fn metadata_of(data: Seq<u8>) -> Option<(Address, Seq<u8>, Seq<u8>, Seq<u8>)>;

/// Relies on mpl_token_metadata's `Metadata::safe_deserialize`: a pure,
/// deterministic function of the record bytes, failing on empty or
/// malformed input.
#[verifier::external_body]
pub(crate) fn parse_metadata(data: &Vec<u8>) -> (r: Option<(Address, Vec<u8>, Vec<u8>, Vec<u8>)>)
    ensures
        match r {
            Some(m) => metadata_of(data@) == Some((m.0, m.1@, m.2@, m.3@)),
            None => metadata_of(data@) is None,
        },
{
    let md = mpl_token_metadata::accounts::Metadata::safe_deserialize(data.as_slice()).ok()?;
    let b = md.mint.to_bytes();
    let lo = u128::from_le_bytes(b[0..16].try_into().unwrap());
    let hi = u128::from_le_bytes(b[16..32].try_into().unwrap());
    Some((
        Address { lo, hi },
        md.name.into_bytes(),
        md.symbol.into_bytes(),
        md.uri.into_bytes(),
    ))
}

/// ASCII whitespace: space, tab, line feed, vertical tab, form feed,
/// carriage return.
pub open spec fn is_ascii_space(b: u8) -> bool {
    b == 32 || (9 <= b && b <= 13)
}

/// `s` without its trailing ASCII whitespace.
pub open spec fn trim_end_spaces(s: Seq<u8>) -> Seq<u8>
    decreases s.len(),
{
    if s.len() > 0 && is_ascii_space(s.last()) {
        trim_end_spaces(s.drop_last())
    } else {
        s
    }
}

/// The first `n` bytes of `s`, or all of `s` when it is shorter.
pub open spec fn truncated(s: Seq<u8>, n: int) -> Seq<u8> {
    if s.len() <= n {
        s
    } else {
        s.take(n)
    }
}

/// The bytes of "Liquid ".
pub open spec fn liquid_prefix() -> Seq<u8> {
    seq![76u8, 105, 113, 117, 105, 100, 32]
}

/// The bytes of "li".
pub open spec fn li_prefix() -> Seq<u8> {
    seq![108u8, 105]
}

/// The derivative's name: "Liquid " before the trimmed original name,
/// within the 32-byte budget.
pub open spec fn derivative_name_of(name: Seq<u8>) -> Seq<u8> {
    truncated(liquid_prefix() + trim_end_spaces(name), 32)
}

/// The derivative's symbol: "li" before the trimmed original symbol, within
/// the 10-byte budget.
pub open spec fn derivative_symbol_of(symbol: Seq<u8>) -> Seq<u8> {
    truncated(li_prefix() + trim_end_spaces(symbol), 10)
}

/// Trimming keeps exactly the first `end` bytes when everything from `end`
/// on is whitespace and the byte before `end`, if any, is not.
proof fn lemma_trim_take(s: Seq<u8>, end: int)
    requires
        0 <= end <= s.len(),
        forall|j: int| end <= j < s.len() ==> is_ascii_space(s[j]),
        end > 0 ==> !is_ascii_space(s[end - 1]),
    ensures
        trim_end_spaces(s) == s.take(end),
    decreases s.len(),
{
    if end == s.len() {
        assert(s.take(end) =~= s);
    } else {
        assert(is_ascii_space(s.last()));
        lemma_trim_take(s.drop_last(), end);
        assert(s.drop_last().take(end) =~= s.take(end));
    }
}

fn is_space_byte(b: u8) -> (r: bool)
    ensures
        r == is_ascii_space(b),
{
    b == 32 || (9 <= b && b <= 13)
}

/// The length of `s` once trailing ASCII whitespace is dropped.
fn trimmed_len(s: &Vec<u8>) -> (end: usize)
    ensures
        end <= s@.len(),
        trim_end_spaces(s@) == s@.take(end as int),
{
    let mut end = s.len();
    while end > 0 && is_space_byte(s[end - 1])
        invariant
            end <= s@.len(),
            forall|j: int| end <= j < s@.len() ==> is_ascii_space(s@[j]),
        decreases end,
    {
        end = end - 1;
    }
    proof {
        lemma_trim_take(s@, end as int);
    }
    end
}

/// Append the first `end` bytes of `src` to `out`, stopping at `cap` bytes
/// of `out` in all.
fn append_truncated(out: &mut Vec<u8>, src: &Vec<u8>, end: usize, cap: usize)
    requires
        end <= src@.len(),
        old(out)@.len() <= cap,
    ensures
        final(out)@ == truncated(old(out)@ + src@.take(end as int), cap as int),
{
    let ghost base = out@;
    let mut i: usize = 0;
    while i < end && out.len() < cap
        invariant
            i <= end,
            end <= src@.len(),
            base.len() <= cap,
            out@.len() <= cap,
            out@ == truncated(base + src@.take(i as int), cap as int),
            out@.len() == if base.len() + i <= cap {
                base.len() + i
            } else {
                cap as int
            },
        decreases end - i,
    {
        proof {
            assert((base + src@.take(i as int + 1)) =~= (base + src@.take(i as int)).push(
                src@[i as int],
            ));
        }
        out.push(src[i]);
        proof {
            assert(out@ =~= truncated(base + src@.take(i as int + 1), cap as int));
        }
        i = i + 1;
    }
    proof {
        if i < end {
            assert(out@.len() == cap);
            assert(out@ =~= truncated(base + src@.take(end as int), cap as int)) by {
                let shorter = base + src@.take(i as int);
                let longer = base + src@.take(end as int);
                assert(forall|j: int| 0 <= j < cap ==> shorter[j] == longer[j]);
                assert(out@ =~= shorter.take(cap as int));
                assert(shorter.take(cap as int) =~= longer.take(cap as int));
            };
        } else {
            assert(src@.take(end as int) == src@.take(i as int));
        }
    }
}

/// The derivative's name for an original asset whose metadata carries
/// `name`.
pub fn build_derivative_name(name: &Vec<u8>) -> (r: Vec<u8>)
    ensures
        r@ == derivative_name_of(name@),
{
    let end = trimmed_len(name);
    let mut out: Vec<u8> = vec![76u8, 105, 113, 117, 105, 100, 32];
    proof {
        assert(out@ =~= liquid_prefix());
    }
    append_truncated(&mut out, name, end, 32);
    out
}

/// The derivative's symbol for an original asset whose metadata carries
/// `symbol`.
pub fn build_derivative_symbol(symbol: &Vec<u8>) -> (r: Vec<u8>)
    ensures
        r@ == derivative_symbol_of(symbol@),
{
    let end = trimmed_len(symbol);
    let mut out: Vec<u8> = vec![108u8, 105];
    proof {
        assert(out@ =~= li_prefix());
    }
    append_truncated(&mut out, symbol, end, 10);
    out
}

} // verus!
