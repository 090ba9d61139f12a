//! The record ledger: a fixed-capacity, byte-packed array of template
//! records with a live-count header.
//!
//! A ledger region is one byte buffer laid out as the serialized
//! configuration header, then a 4-byte little-endian live count, then
//! `declaredCapacity` fixed-size slots of [`CONFIG_LINE_SIZE`] bytes
//! each.  Appending patches a sub-range of the buffer in place and bumps
//! the count; it never touches the configuration header and never
//! re-serializes the whole region.

use vstd::prelude::*;

use vstd::bytes::lemma_auto_spec_u32_to_from_le_bytes;
use vstd::bytes::spec_u32_from_le_bytes;
use vstd::bytes::spec_u32_to_le_bytes;
use vstd::bytes::u32_from_le_bytes;
use vstd::bytes::u32_to_le_bytes;
use vstd::pervasive::VecAdditionalExecFns;
use vstd::slice::slice_subrange;

use crate::codec::no_trailing_zero;
use crate::codec::pad_to_width;
use crate::codec::pad_zeros;
use crate::codec::strip_padding;
use crate::codec::strip_trailing_zeros;
use crate::codec::lemma_pad_strip_round_trip;
use crate::codec::MAX_NAME_LENGTH;
use crate::codec::MAX_URI_LENGTH;
use crate::errors::ErrorCode;

verus! {

/// Byte offset of the live-count header: the size of the serialized
/// configuration that precedes it (bump, authority, length-prefixed
/// identifier and symbol, royalty basis points, the creator list with
/// its option tag and length prefix, max supply, the two flags, and the
/// declared capacity).
pub const CONFIG_ARRAY_START: usize = 1 + 32 + (4 + 6) + (4 + 10) + 2 + (1 + 4 + 5 * 34) + 8 + 1
    + 1 + 4;

/// Size of one template slot: two length-prefixed fixed-width fields.
pub const CONFIG_LINE_SIZE: usize = (4 + 32) + (4 + 200);

/// One claimable template: a name and a uri, each a sequence of UTF-8
/// bytes narrower than its fixed slot width.
#[derive(Debug, PartialEq, Eq)]
pub struct ConfigLine {
    pub name: Vec<u8>,
    pub uri: Vec<u8>,
}

/// Byte offset of the live-count header inside a region.
pub open spec fn count_off() -> int {
    CONFIG_ARRAY_START as int
}

/// Byte offset of slot `i` inside a region.
pub open spec fn slot_off(i: int) -> int {
    CONFIG_ARRAY_START + 4 + i * (CONFIG_LINE_SIZE as int)
}

/// The live count stored in a region's 4-byte little-endian header.
pub open spec fn spec_live_count(r: Seq<u8>) -> u32 {
    spec_u32_from_le_bytes(r.subrange(count_off(), count_off() + 4))
}

/// A region sized for exactly `cap` slots whose live count respects the
/// declared capacity.
pub open spec fn wf_region(r: Seq<u8>, cap: nat) -> bool {
    &&& r.len() == CONFIG_ARRAY_START + 4 + cap * (CONFIG_LINE_SIZE as nat)
    &&& spec_live_count(r) <= cap
}

/// Every live slot lies inside the region; all a read needs.
pub open spec fn live_slots_fit(r: Seq<u8>) -> bool {
    CONFIG_ARRAY_START + 4 + (spec_live_count(r) as nat) * (CONFIG_LINE_SIZE as nat) <= r.len()
}

/// A well-formed region can be read: its live slots fit.
pub proof fn lemma_wf_region_slots_fit(r: Seq<u8>, cap: nat)
    requires
        wf_region(r, cap),
    ensures
        live_slots_fit(r),
{
    assert((spec_live_count(r) as nat) * (CONFIG_LINE_SIZE as nat) <= cap * (
    CONFIG_LINE_SIZE as nat)) by (nonlinear_arith)
        requires
            spec_live_count(r) <= cap,
    ;
}

/// Whether a template's fields fit their fixed slot widths.
pub open spec fn line_fits(l: ConfigLine) -> bool {
    &&& l.name@.len() <= MAX_NAME_LENGTH
    &&& l.uri@.len() <= MAX_URI_LENGTH
}

/// The 240 bytes a template occupies on disk: each field right-padded
/// to its fixed width behind a little-endian prefix holding that width.
pub open spec fn encoded_slot(l: ConfigLine) -> Seq<u8> {
    spec_u32_to_le_bytes(MAX_NAME_LENGTH as u32) + pad_zeros(l.name@, MAX_NAME_LENGTH as nat)
        + spec_u32_to_le_bytes(MAX_URI_LENGTH as u32) + pad_zeros(l.uri@, MAX_URI_LENGTH as nat)
}

/// The bytes of slot `i`.
pub open spec fn slot_bytes(r: Seq<u8>, i: int) -> Seq<u8> {
    r.subrange(slot_off(i), slot_off(i) + CONFIG_LINE_SIZE as int)
}

/// The name stored in slot `i`, with its zero padding stripped.
pub open spec fn decoded_name(r: Seq<u8>, i: int) -> Seq<u8> {
    strip_trailing_zeros(r.subrange(slot_off(i) + 4, slot_off(i) + 4 + MAX_NAME_LENGTH as int))
}

/// The uri stored in slot `i`, with its zero padding stripped.
pub open spec fn decoded_uri(r: Seq<u8>, i: int) -> Seq<u8> {
    strip_trailing_zeros(
        r.subrange(
            slot_off(i) + 4 + MAX_NAME_LENGTH as int + 4,
            slot_off(i) + CONFIG_LINE_SIZE as int,
        ),
    )
}

/// Why an append is refused, or `None` when it goes through: the start
/// index and every record must lie within the declared capacity, every
/// field must fit its fixed width, and the live count may never pass
/// the capacity.
pub open spec fn append_error(
    r: Seq<u8>,
    cap: nat,
    index: u32,
    lines: Seq<ConfigLine>,
) -> Option<ErrorCode> {
    if index as nat >= cap {
        Some(ErrorCode::IndexGreaterThanLength)
    } else if exists|k: int| 0 <= k < lines.len() && !line_fits(lines[k]) {
        Some(ErrorCode::FieldTooLong)
    } else if index + lines.len() > cap {
        Some(ErrorCode::IndexGreaterThanLength)
    } else if spec_live_count(r) + lines.len() > cap {
        Some(ErrorCode::NumericalOverflowError)
    } else {
        None
    }
}

/// What a successful append did to the region: the live count grew by
/// the number of appended records, the written slots hold exactly the
/// encodings of the supplied records, and every other byte — the
/// configuration header above all — is untouched.
pub open spec fn append_effect(
    old_r: Seq<u8>,
    new_r: Seq<u8>,
    index: u32,
    lines: Seq<ConfigLine>,
) -> bool {
    &&& new_r.len() == old_r.len()
    &&& spec_live_count(new_r) == spec_live_count(old_r) + lines.len()
    &&& forall|k: int|
        0 <= k < lines.len() ==> slot_bytes(new_r, index + k) == encoded_slot(lines[k])
    &&& forall|j: int|
        0 <= j < old_r.len() && j < slot_off(index as int) && !(count_off() <= j < count_off()
            + 4) ==> new_r[j] == old_r[j]
    &&& forall|j: int|
        slot_off(index + lines.len()) <= j < old_r.len() ==> new_r[j] == old_r[j]
}

/// Read the live count out of the header.
fn read_live_count(region: &Vec<u8>) -> (x: u32)
    requires
        region@.len() >= CONFIG_ARRAY_START + 4,
    ensures
        x == spec_live_count(region@),
{
    let s = slice_subrange(region.as_slice(), CONFIG_ARRAY_START, CONFIG_ARRAY_START + 4);
    u32_from_le_bytes(s)
}

/// Write `x` into the live-count header, touching nothing else.
fn set_live_count(region: &mut Vec<u8>, x: u32)
    requires
        old(region)@.len() >= CONFIG_ARRAY_START + 4,
    ensures
        final(region)@.len() == old(region)@.len(),
        spec_live_count(final(region)@) == x,
        forall|j: int|
            0 <= j < old(region)@.len() && !(count_off() <= j < count_off() + 4)
                ==> final(region)@[j] == old(region)@[j],
{
    let bs = u32_to_le_bytes(x);
    region.set(CONFIG_ARRAY_START, bs[0]);
    region.set(CONFIG_ARRAY_START + 1, bs[1]);
    region.set(CONFIG_ARRAY_START + 2, bs[2]);
    region.set(CONFIG_ARRAY_START + 3, bs[3]);
    proof {
        lemma_auto_spec_u32_to_from_le_bytes();
        assert(region@.subrange(count_off(), count_off() + 4) =~= spec_u32_to_le_bytes(x));
    }
}

/// Copy `src` over the bytes of `region` starting at `off`, touching
/// nothing else.
fn write_bytes(region: &mut Vec<u8>, off: usize, src: &Vec<u8>)
    requires
        off + src@.len() <= old(region)@.len(),
    ensures
        final(region)@.len() == old(region)@.len(),
        forall|j: int|
            0 <= j < old(region)@.len() && !(off <= j < off + src@.len())
                ==> final(region)@[j] == old(region)@[j],
        final(region)@.subrange(off as int, off + src@.len()) == src@,
{
    proof {
        // a vector's length always fits usize
        assert(region@.len() == region.len());
    }
    let mut i: usize = 0;
    while i < src.len()
        invariant
            i <= src@.len(),
            off + src@.len() <= old(region)@.len(),
            old(region)@.len() <= usize::MAX,
            region@.len() == old(region)@.len(),
            forall|j: int|
                0 <= j < old(region)@.len() && !(off <= j < off + i) ==> region@[j] == old(
                    region,
                )@[j],
            forall|j: int| 0 <= j < i ==> region@[off + j] == src@[j],
        decreases src@.len() - i,
    {
        region.set(off + i, src[i]);
        i += 1;
    }
    assert(region@.subrange(off as int, off + src@.len()) =~= src@);
}

/// Copy `count` bytes of `region` starting at `start` into a fresh
/// vector.
fn read_bytes(region: &Vec<u8>, start: usize, count: usize) -> (r: Vec<u8>)
    requires
        start + count <= region@.len(),
    ensures
        r@ == region@.subrange(start as int, start + count),
{
    proof {
        // a vector's length always fits usize
        assert(region@.len() == region.len());
    }
    let mut r: Vec<u8> = Vec::new();
    let mut i: usize = 0;
    while i < count
        invariant
            i <= count,
            start + count <= region@.len(),
            region@.len() <= usize::MAX,
            r@ =~= region@.subrange(start as int, start + i),
        decreases count - i,
    {
        r.push(region[start + i]);
        i += 1;
    }
    assert(r@ =~= region@.subrange(start as int, start + count));
    r
}

/// Allocate the storage region for a ledger of `max_number_of_lines`
/// template slots: the configuration header, the live-count header —
/// starting at zero — and one fixed-size slot per declared line, all
/// zeroed.
pub fn create_ledger(max_number_of_lines: u32) -> (r: Vec<u8>)
    requires
        CONFIG_ARRAY_START + 4 + (max_number_of_lines as int) * (CONFIG_LINE_SIZE as int)
            <= usize::MAX,
    ensures
        wf_region(r@, max_number_of_lines as nat),
        spec_live_count(r@) == 0,
        forall|j: int|
            0 <= j < r@.len() && !(count_off() <= j < count_off() + 4) ==> r@[j] == 0u8,
{
    let total: usize = CONFIG_ARRAY_START + 4 + (max_number_of_lines as usize) * CONFIG_LINE_SIZE;
    let mut r: Vec<u8> = Vec::new();
    while r.len() < total
        invariant
            r@.len() <= total,
            forall|j: int| 0 <= j < r@.len() ==> r@[j] == 0u8,
        decreases total - r@.len(),
    {
        r.push(0u8);
    }
    set_live_count(&mut r, 0);
    r
}

/// Read the number of records that are live in the ledger.
pub fn get_config_count(region: &Vec<u8>) -> (r: Result<usize, ErrorCode>)
    requires
        region@.len() >= CONFIG_ARRAY_START + 4,
    ensures
        r == Ok::<usize, ErrorCode>(spec_live_count(region@) as usize),
{
    let x = read_live_count(region);
    Ok(x as usize)
}

/// Read the record in slot `index`, stripping the zero padding off both
/// fields.  Only slots below the live count can be read.
pub fn get_config_line(region: &Vec<u8>, index: u32) -> (r: Result<ConfigLine, ErrorCode>)
    requires
        live_slots_fit(region@),
    ensures
        match r {
            Ok(line) => {
                &&& index < spec_live_count(region@)
                &&& line.name@ == decoded_name(region@, index as int)
                &&& line.uri@ == decoded_uri(region@, index as int)
            },
            Err(e) => {
                &&& index >= spec_live_count(region@)
                &&& e == ErrorCode::IndexGreaterThanLength
            },
        },
{
    proof {
        // a vector's length always fits usize
        assert(region@.len() == region.len());
    }
    let count = read_live_count(region);
    if index >= count {
        return Err(ErrorCode::IndexGreaterThanLength);
    }
    proof {
        assert((index as int) * (CONFIG_LINE_SIZE as int) >= 0) by (nonlinear_arith)
            requires
                index as int >= 0,
        ;
        assert((index as int) * (CONFIG_LINE_SIZE as int) + CONFIG_LINE_SIZE as int <= (
        count as int) * (CONFIG_LINE_SIZE as int)) by (nonlinear_arith)
            requires
                index as int + 1 <= count as int,
        ;
    }
    let off: usize = CONFIG_ARRAY_START + 4 + (index as usize) * CONFIG_LINE_SIZE;
    let name_raw = read_bytes(region, off + 4, MAX_NAME_LENGTH);
    let uri_raw = read_bytes(region, off + 4 + MAX_NAME_LENGTH + 4, MAX_URI_LENGTH);
    let name = strip_padding(&name_raw);
    let uri = strip_padding(&uri_raw);
    Ok(ConfigLine { name, uri })
}

/// Append `config_lines` into the slots starting at `index`, padding
/// each field to its fixed width, and bump the live count by the number
/// of appended records.  One in-place patch of the backing bytes: the
/// configuration header and every slot outside the written range keep
/// their bytes.  On an error nothing at all is written.
pub fn add_config_lines(
    region: &mut Vec<u8>,
    max_number_of_lines: u32,
    index: u32,
    config_lines: &Vec<ConfigLine>,
) -> (r: Result<(), ErrorCode>)
    requires
        wf_region(old(region)@, max_number_of_lines as nat),
    ensures
        wf_region(final(region)@, max_number_of_lines as nat),
        match r {
            Ok(()) => {
                &&& append_error(
                    old(region)@,
                    max_number_of_lines as nat,
                    index,
                    config_lines@,
                ) is None
                &&& append_effect(old(region)@, final(region)@, index, config_lines@)
            },
            Err(e) => {
                &&& final(region)@ == old(region)@
                &&& append_error(old(region)@, max_number_of_lines as nat, index, config_lines@)
                    == Some(e)
            },
        },
{
    proof {
        // a vector's length always fits usize
        assert(region@.len() == region.len());
    }
    let cap = max_number_of_lines;
    if index >= cap {
        return Err(ErrorCode::IndexGreaterThanLength);
    }
    let n = config_lines.len();
    let mut k: usize = 0;
    while k < n
        invariant
            k <= n,
            n == config_lines@.len(),
            cap == max_number_of_lines,
            index < cap,
            wf_region(old(region)@, max_number_of_lines as nat),
            region@ == old(region)@,
            forall|k2: int| 0 <= k2 < k ==> line_fits(config_lines@[k2]),
        decreases n - k,
    {
        if config_lines[k].name.len() > MAX_NAME_LENGTH || config_lines[k].uri.len()
            > MAX_URI_LENGTH {
            return Err(ErrorCode::FieldTooLong);
        }
        k += 1;
    }
    if n > (cap - index) as usize {
        return Err(ErrorCode::IndexGreaterThanLength);
    }
    let current = read_live_count(region);
    if (current as u64) + (n as u64) > cap as u64 {
        return Err(ErrorCode::NumericalOverflowError);
    }
    proof {
        assert((index + n) * (CONFIG_LINE_SIZE as int) <= (cap as int) * (
        CONFIG_LINE_SIZE as int)) by (nonlinear_arith)
            requires
                index + n <= cap as int,
        ;
    }
    let mut k: usize = 0;
    while k < n
        invariant
            k <= n,
            n == config_lines@.len(),
            index + n <= cap,
            (index + n) * (CONFIG_LINE_SIZE as int) <= (cap as int) * (CONFIG_LINE_SIZE as int),
            forall|k2: int| 0 <= k2 < n ==> line_fits(config_lines@[k2]),
            wf_region(old(region)@, cap as nat),
            old(region)@.len() <= usize::MAX,
            region@.len() == old(region)@.len(),
            forall|j: int|
                0 <= j < old(region)@.len() && !(slot_off(index as int) <= j < slot_off(
                    index + k,
                )) ==> region@[j] == old(region)@[j],
            forall|k2: int|
                0 <= k2 < k ==> slot_bytes(region@, index + k2) == encoded_slot(
                    config_lines@[k2],
                ),
        decreases n - k,
    {
        proof {
            assert((index + k) * (CONFIG_LINE_SIZE as int) >= 0) by (nonlinear_arith)
                requires
                    index + k >= 0,
            ;
            assert((index + k) * (CONFIG_LINE_SIZE as int) + CONFIG_LINE_SIZE as int <= (index
                + n) * (CONFIG_LINE_SIZE as int)) by (nonlinear_arith)
                requires
                    index + k + 1 <= index + n,
            ;
            assert((index + k + 1) * (CONFIG_LINE_SIZE as int) == (index + k) * (
            CONFIG_LINE_SIZE as int) + CONFIG_LINE_SIZE as int) by (nonlinear_arith);
        }
        let ghost prev = region@;
        let off: usize = CONFIG_ARRAY_START + 4 + (index as usize + k) * CONFIG_LINE_SIZE;
        let name_padded = pad_to_width(&config_lines[k].name, MAX_NAME_LENGTH);
        let uri_padded = pad_to_width(&config_lines[k].uri, MAX_URI_LENGTH);
        let name_prefix = u32_to_le_bytes(MAX_NAME_LENGTH as u32);
        let uri_prefix = u32_to_le_bytes(MAX_URI_LENGTH as u32);
        write_bytes(region, off, &name_prefix);
        write_bytes(region, off + 4, &name_padded);
        write_bytes(region, off + 4 + MAX_NAME_LENGTH, &uri_prefix);
        write_bytes(region, off + 4 + MAX_NAME_LENGTH + 4, &uri_padded);
        proof {
            let line = config_lines@[k as int];
            assert(forall|j: int|
                0 <= j < prev.len() && !(off <= j < off + CONFIG_LINE_SIZE) ==> region@[j]
                    == prev[j]);
            assert(slot_bytes(region@, index + k) =~= encoded_slot(line)) by {
                assert(forall|j: int| 0 <= j < 4 ==> region@[off + j] == name_prefix@[j]);
                assert(forall|j: int|
                    0 <= j < MAX_NAME_LENGTH ==> region@[off + 4 + j] == name_padded@[j]);
                assert(forall|j: int|
                    0 <= j < 4 ==> region@[off + 4 + MAX_NAME_LENGTH + j] == uri_prefix@[j]);
                assert(forall|j: int|
                    0 <= j < MAX_URI_LENGTH ==> region@[off + 4 + MAX_NAME_LENGTH + 4 + j]
                        == uri_padded@[j]);
            }
            assert forall|k2: int| 0 <= k2 < k implies #[trigger] slot_bytes(region@, index + k2)
                == slot_bytes(prev, index + k2) by {
                assert((index + k2) * (CONFIG_LINE_SIZE as int) >= 0) by (nonlinear_arith)
                    requires
                        index + k2 >= 0,
                ;
                assert((index + k2) * (CONFIG_LINE_SIZE as int) + CONFIG_LINE_SIZE as int <= (
                index + k) * (CONFIG_LINE_SIZE as int)) by (nonlinear_arith)
                    requires
                        index + k2 + 1 <= index + k,
                ;
                assert(forall|j: int|
                    slot_off(index + k2) <= j < slot_off(index + k2) + CONFIG_LINE_SIZE as int
                        ==> region@[j] == prev[j]);
                assert(slot_bytes(region@, index + k2) =~= slot_bytes(prev, index + k2));
            }
            assert((index as int) * (CONFIG_LINE_SIZE as int) <= (index + k) * (
            CONFIG_LINE_SIZE as int)) by (nonlinear_arith)
                requires
                    index as int <= index + k,
            ;
            assert forall|j: int|
                0 <= j < old(region)@.len() && !(slot_off(index as int) <= j < slot_off(
                    index + k + 1,
                )) implies region@[j] == old(region)@[j] by {
                assert(region@[j] == prev[j]);
                assert(prev[j] == old(region)@[j]);
            }
        }
        k += 1;
    }
    let ghost written = region@;
    set_live_count(region, current + (n as u32));
    proof {
        assert forall|k2: int| 0 <= k2 < n implies #[trigger] slot_bytes(region@, index + k2)
            == encoded_slot(config_lines@[k2]) by {
            assert((index + k2) * (CONFIG_LINE_SIZE as int) >= 0) by (nonlinear_arith)
                requires
                    index + k2 >= 0,
            ;
            assert((index + k2) * (CONFIG_LINE_SIZE as int) + CONFIG_LINE_SIZE as int <= (index
                + n) * (CONFIG_LINE_SIZE as int)) by (nonlinear_arith)
                requires
                    index + k2 + 1 <= index + n,
            ;
            assert(forall|j: int|
                slot_off(index + k2) <= j < slot_off(index + k2) + CONFIG_LINE_SIZE as int
                    ==> region@[j] == written[j]);
            assert(slot_bytes(region@, index + k2) =~= slot_bytes(written, index + k2));
        }
        assert forall|j: int|
            0 <= j < old(region)@.len() && j < slot_off(index as int) && !(count_off() <= j
                < count_off() + 4) implies region@[j] == old(region)@[j] by {
            assert(region@[j] == written[j]);
            assert(written[j] == old(region)@[j]);
        }
        assert forall|j: int|
            slot_off(index + n) <= j < old(region)@.len() implies region@[j] == old(
                region,
            )@[j] by {
            assert((index + n) * (CONFIG_LINE_SIZE as int) >= 0) by (nonlinear_arith)
                requires
                    index + n >= 0,
            ;
            assert(region@[j] == written[j]);
            assert(written[j] == old(region)@[j]);
        }
        assert(append_effect(old(region)@, region@, index, config_lines@));
    }
    Ok(())
}

/// An append whose start index lies at or past the declared capacity is
/// always refused as out of range; by the contract of
/// [`add_config_lines`] a refused append leaves the region, and with it
/// the live count, exactly as it was.
pub proof fn lemma_append_out_of_range(r: Seq<u8>, cap: nat, index: u32, lines: Seq<ConfigLine>)
    requires
        index as nat >= cap,
    ensures
        append_error(r, cap, index, lines) == Some(ErrorCode::IndexGreaterThanLength),
{
}

/// Round trip: after a successful append, the live count is the prior
/// count plus the number of appended records, and every newly written
/// slot decodes back to exactly the name and uri that were supplied,
/// whatever zero padding was added on the way in — for records that fit
/// their widths and do not themselves end in a zero byte.
pub proof fn lemma_append_round_trip(
    old_r: Seq<u8>,
    new_r: Seq<u8>,
    index: u32,
    lines: Seq<ConfigLine>,
    k: int,
)
    requires
        append_effect(old_r, new_r, index, lines),
        slot_off(index + lines.len()) <= new_r.len(),
        0 <= k < lines.len(),
        line_fits(lines[k]),
        no_trailing_zero(lines[k].name@),
        no_trailing_zero(lines[k].uri@),
    ensures
        spec_live_count(new_r) == spec_live_count(old_r) + lines.len(),
        decoded_name(new_r, index + k) == lines[k].name@,
        decoded_uri(new_r, index + k) == lines[k].uri@,
{
    let line = lines[k];
    let off = slot_off(index + k);
    let slot = slot_bytes(new_r, index + k);
    let name_padded = pad_zeros(line.name@, MAX_NAME_LENGTH as nat);
    let uri_padded = pad_zeros(line.uri@, MAX_URI_LENGTH as nat);
    lemma_auto_spec_u32_to_from_le_bytes();
    assert(slot == encoded_slot(line));
    assert((index + k) * (CONFIG_LINE_SIZE as int) >= 0) by (nonlinear_arith)
        requires
            index + k >= 0,
    ;
    assert((index + k) * (CONFIG_LINE_SIZE as int) + CONFIG_LINE_SIZE as int <= (index
        + lines.len()) * (CONFIG_LINE_SIZE as int)) by (nonlinear_arith)
        requires
            index + k + 1 <= index + lines.len(),
    ;
    assert(spec_u32_to_le_bytes(MAX_NAME_LENGTH as u32).len() == 4);
    assert(spec_u32_to_le_bytes(MAX_URI_LENGTH as u32).len() == 4);
    assert(name_padded.len() == MAX_NAME_LENGTH);
    assert(uri_padded.len() == MAX_URI_LENGTH);
    assert forall|j: int| 0 <= j < MAX_NAME_LENGTH as int implies new_r.subrange(
        off + 4,
        off + 4 + MAX_NAME_LENGTH as int,
    )[j] == name_padded[j] by {
        assert(slot[4 + j] == new_r[off + 4 + j]);
        assert(encoded_slot(line)[4 + j] == name_padded[j]);
    }
    assert(new_r.subrange(off + 4, off + 4 + MAX_NAME_LENGTH as int) =~= name_padded);
    assert forall|j: int| 0 <= j < MAX_URI_LENGTH as int implies new_r.subrange(
        off + 4 + MAX_NAME_LENGTH as int + 4,
        off + CONFIG_LINE_SIZE as int,
    )[j] == uri_padded[j] by {
        assert(slot[4 + MAX_NAME_LENGTH as int + 4 + j] == new_r[off + 4 + MAX_NAME_LENGTH as int
            + 4 + j]);
        assert(encoded_slot(line)[4 + MAX_NAME_LENGTH as int + 4 + j] == uri_padded[j]);
    }
    assert(new_r.subrange(off + 4 + MAX_NAME_LENGTH as int + 4, off + CONFIG_LINE_SIZE as int)
        =~= uri_padded);
    lemma_pad_strip_round_trip(line.name@, MAX_NAME_LENGTH as nat);
    lemma_pad_strip_round_trip(line.uri@, MAX_URI_LENGTH as nat);
}

} // verus!
