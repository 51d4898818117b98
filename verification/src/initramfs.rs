//! The initial RAM file system: finding it in a kernel image, and rewriting the
//! archive that replaces it.

use std::io::Read;
use std::io::Write;

use vstd::prelude::*;

use crate::main_stream;
use crate::main_stream::read_u32;
use crate::text;
use crate::text::{bytes_eq, cat2, contains_text, hex_digit, join_path, push_text, str_eq};

verus! {

/// What an LZ4 block decompresses to at most, in a legacy LZ4 stream.
pub const MAX_BLOCK_DECOMPRESSED: usize = 8_388_608;

/// The length of a header in a cpio archive.
pub const CPIO_HEADER: usize = 110;

/// The first bytes of a gzip stream with deflated data.
pub open spec fn gzip_magic() -> Seq<u8> {
    seq![0x1fu8, 0x8b, 8]
}

/// The first bytes of a legacy LZ4 stream.
pub open spec fn lz4_magic() -> Seq<u8> {
    seq![0x02u8, 0x21, 0x4c, 0x18]
}

/// The first bytes of an entry in a "newc" cpio archive: "070701".
pub open spec fn newc_magic() -> Seq<u8> {
    seq![0x30u8, 0x37, 0x30, 0x37, 0x30, 0x31]
}

/// The first bytes of an entry in a "crc" cpio archive: "070702".
pub open spec fn crc_magic() -> Seq<u8> {
    seq![0x30u8, 0x37, 0x30, 0x37, 0x30, 0x32]
}

/// The bytes are a cpio archive.
pub open spec fn is_cpio(data: Seq<u8>) -> bool {
    text::has_prefix(data, newc_magic()) || text::has_prefix(data, crc_magic())
}

/// What the gzip stream at the beginning of `data` decompresses to, if it is one.
pub uninterp spec fn gunzipped(data: Seq<u8>) -> Option<Seq<u8>>;

/// What an LZ4 block decompresses to, if it is one and `capacity` bytes hold it.
pub uninterp spec fn lz4_block(block: Seq<u8>, capacity: nat) -> Option<Seq<u8>>;

/// The gzip stream that the best compression makes of `data`, if it succeeds.
pub uninterp spec fn gzipped(data: Seq<u8>) -> Option<Seq<u8>>;

/// `flate2::read::GzDecoder`, read to its end: decompresses the first member of a
/// gzip stream and ignores what follows it. The result is a function of the bytes,
/// and there is one only if the bytes begin with the identification of a gzip
/// stream with deflated data.
#[verifier::external_body]
fn gunzip(data: &[u8]) -> (r: Option<Vec<u8>>)
    ensures
        r is Some <==> gunzipped(data@) is Some,
        r matches Some(out) ==> gunzipped(data@) == Some(out@) && text::has_prefix(
            data@,
            gzip_magic(),
        ),
{
    let mut out = Vec::new();
    match flate2::read::GzDecoder::new(data).read_to_end(&mut out) {
        Ok(_) => Some(out),
        Err(_) => None,
    }
}

/// `flate2::write::GzEncoder` with the best compression, writing into memory. The
/// result is a function of the bytes; it begins with the identification of a gzip
/// stream with deflated data, and it decompresses to `data`.
#[verifier::external_body]
fn gzip_best(data: &[u8]) -> (r: Option<Vec<u8>>)
    ensures
        r is Some <==> gzipped(data@) is Some,
        r matches Some(out) ==> gzipped(data@) == Some(out@) && gunzipped(out@) == Some(data@)
            && text::has_prefix(out@, gzip_magic()),
{
    let mut encoder = flate2::write::GzEncoder::new(Vec::new(), flate2::Compression::best());
    match encoder.write_all(data) {
        Ok(()) => encoder.finish().ok(),
        Err(_) => None,
    }
}

/// `lz4_flex::block::decompress_into`: decompresses one block into `output` and
/// returns how many bytes it wrote, from the beginning on. The result is a function
/// of the block and of the size of `output`. Blocks that are so long that their
/// encoded lengths could overflow are left out.
#[verifier::external_body]
fn lz4_decompress_into(block: &[u8], output: &mut Vec<u8>) -> (r: Option<usize>)
    requires
        block@.len() <= MAX_BLOCK_DECOMPRESSED + 16,
        old(output)@.len() <= MAX_BLOCK_DECOMPRESSED,
    ensures
        final(output)@.len() == old(output)@.len(),
        r is Some <==> lz4_block(block@, old(output)@.len()) is Some,
        r matches Some(n) ==> n <= final(output)@.len() && lz4_block(block@, old(output)@.len())
            == Some(final(output)@.take(n as int)),
{
    lz4_flex::block::decompress_into(block, output).ok()
}

/// `magic` stands at position `i`.
pub open spec fn stands_at(data: Seq<u8>, magic: Seq<u8>, i: int) -> bool {
    0 <= i && i + magic.len() <= data.len() && data.subrange(i, i + magic.len() as int) == magic
}

/// The positions below `n` at which `magic` stands, in ascending order.
pub open spec fn positions(data: Seq<u8>, magic: Seq<u8>, n: int) -> Seq<int>
    decreases n,
{
    if n <= 0 {
        Seq::empty()
    } else if stands_at(data, magic, n - 1) {
        positions(data, magic, n - 1).push(n - 1)
    } else {
        positions(data, magic, n - 1)
    }
}

/// A list of positions as numbers.
pub open spec fn as_ints(list: Seq<usize>) -> Seq<int> {
    list.map_values(|i: usize| i as int)
}

/// Every position at which `magic` stands, in ascending order.
pub fn scan_offsets(data: &[u8], magic: &[u8]) -> (r: Vec<usize>)
    requires
        magic@.len() > 0,
    ensures
        as_ints(r@) == positions(data@, magic@, data@.len() as int),
{
    let mut out: Vec<usize> = Vec::new();
    let mut i: usize = 0;
    let n: usize = magic.len();
    assert(as_ints(out@) =~= positions(data@, magic@, 0));
    while i < data.len()
        invariant
            0 <= i <= data@.len(),
            n == magic@.len(),
            as_ints(out@) == positions(data@, magic@, i as int),
        decreases data@.len() - i,
    {
        if n <= data.len() - i && bytes_eq(vstd::slice::slice_subrange(data, i, i + n), magic) {
            out.push(i);
        }
        i = i + 1;
        assert(as_ints(out@) =~= positions(data@, magic@, i as int));
    }
    out
}

fn begins_with(data: &[u8], magic: &[u8]) -> (r: bool)
    ensures
        r == text::has_prefix(data@, magic@),
{
    if data.len() < magic.len() {
        return false;
    }
    assert(data@.subrange(0, magic@.len() as int) =~= data@.take(magic@.len() as int));
    bytes_eq(vstd::slice::slice_subrange(data, 0, magic.len()), magic)
}

/// Whether the bytes are a cpio archive.
pub fn is_cpio_archive(data: &[u8]) -> (r: bool)
    ensures
        r == is_cpio(data@),
{
    let newc = [0x30u8, 0x37, 0x30, 0x37, 0x30, 0x31];
    let crc = [0x30u8, 0x37, 0x30, 0x37, 0x30, 0x32];
    assert(newc@ =~= newc_magic());
    assert(crc@ =~= crc_magic());
    begins_with(data, newc.as_slice()) || begins_with(data, crc.as_slice())
}

/// Where the block at `cursor` of a legacy LZ4 stream stands: its size comes before
/// it. There is none where the stream ends, where the size is 0 or implausible, and
/// where the block would reach beyond the stream.
pub open spec fn lz4_block_range(input: Seq<u8>, cursor: int) -> Option<(int, int)> {
    if cursor + 4 > input.len() {
        None
    } else {
        let size = main_stream::u32_at(input, cursor);
        if size == 0 || size > MAX_BLOCK_DECOMPRESSED + 16 || cursor + 4 + size > input.len() {
            None
        } else {
            Some((cursor + 4, cursor + 4 + size))
        }
    }
}

/// What the blocks from `cursor` on decompress to, one after the other, up to the
/// first one that does not.
pub open spec fn lz4_blocks(input: Seq<u8>, cursor: int) -> Seq<u8>
    decreases input.len() - cursor,
{
    match lz4_block_range(input, cursor) {
        Some((from, to)) => match lz4_block(
            input.subrange(from, to),
            MAX_BLOCK_DECOMPRESSED as nat,
        ) {
            Some(out) => out + lz4_blocks(input, to),
            None => Seq::empty(),
        },
        None => Seq::empty(),
    }
}

/// What a legacy LZ4 stream decompresses to. A stream without a single byte counts
/// as none.
pub open spec fn lz4_stream(input: Seq<u8>) -> Option<Seq<u8>> {
    if text::has_prefix(input, lz4_magic()) && lz4_blocks(input, 4).len() > 0 {
        Some(lz4_blocks(input, 4))
    } else {
        None
    }
}

/// Where the block at `cursor` of a legacy LZ4 stream stands.
pub fn find_lz4_block(input: &[u8], cursor: usize) -> (r: Option<(usize, usize)>)
    requires
        cursor <= input@.len(),
    ensures
        r is Some <==> lz4_block_range(input@, cursor as int) is Some,
        r matches Some((from, to)) ==> lz4_block_range(input@, cursor as int) == Some(
            (from as int, to as int),
        ) && cursor < from < to <= input@.len() && to - from <= MAX_BLOCK_DECOMPRESSED + 16,
{
    if input.len() - cursor < 4 {
        return None;
    }
    let size: usize = read_u32(input, cursor) as usize;
    if size == 0 || size > MAX_BLOCK_DECOMPRESSED + 16 {
        return None;
    }
    if input.len() - cursor - 4 < size {
        return None;
    }
    Some((cursor + 4, cursor + 4 + size))
}

/// Decompresses a legacy LZ4 stream.
pub fn decompress_lz4_legacy(input: &[u8]) -> (r: Option<Vec<u8>>)
    ensures
        r is Some <==> lz4_stream(input@) is Some,
        r matches Some(out) ==> lz4_stream(input@) == Some(out@),
{
    let magic = [0x02u8, 0x21, 0x4c, 0x18];
    assert(magic@ =~= lz4_magic());
    if !begins_with(input, magic.as_slice()) {
        return None;
    }
    let mut cursor: usize = 4;
    let mut out: Vec<u8> = Vec::new();
    let mut done = false;
    assert(out@ + lz4_blocks(input@, 4) =~= lz4_blocks(input@, 4));
    while !done
        invariant
            4 <= cursor <= input@.len(),
            !done ==> out@ + lz4_blocks(input@, cursor as int) == lz4_blocks(input@, 4),
            done ==> out@ == lz4_blocks(input@, 4),
        decreases input@.len() - cursor + (if done { 0int } else { 1int }),
    {
        match find_lz4_block(input, cursor) {
            Some((from, to)) => {
                let mut block_out: Vec<u8> = vec![0u8; MAX_BLOCK_DECOMPRESSED];
                let block = vstd::slice::slice_subrange(input, from, to);
                let written = lz4_decompress_into(block, &mut block_out);
                match written {
                    Some(n) => {
                        let ghost before = out@;
                        let bytes = vstd::slice::slice_subrange(block_out.as_slice(), 0, n);
                        assert(bytes@ =~= block_out@.take(n as int));
                        out.extend_from_slice(bytes);
                        proof {
                            text::lemma_regroup(before, bytes@, lz4_blocks(input@, to as int));
                        }
                        cursor = to;
                    },
                    None => {
                        assert(out@ + Seq::<u8>::empty() =~= out@);
                        done = true;
                    },
                }
            },
            None => {
                assert(out@ + Seq::<u8>::empty() =~= out@);
                done = true;
            },
        }
    }
    if out.len() == 0 {
        None
    } else {
        Some(out)
    }
}

/// The better one of the best archive so far and a new candidate: a candidate counts
/// only if it is a cpio archive, and wins only if it is longer.
pub open spec fn better(best: Option<Seq<u8>>, candidate: Option<Seq<u8>>) -> Option<Seq<u8>> {
    match candidate {
        Some(c) => if is_cpio(c) && (best is None || c.len() > best->0.len()) {
            Some(c)
        } else {
            best
        },
        None => best,
    }
}

/// The best one of a list of candidates.
pub open spec fn best_of(candidates: Seq<Option<Seq<u8>>>) -> Option<Seq<u8>>
    decreases candidates.len(),
{
    if candidates.len() == 0 {
        None
    } else {
        better(best_of(candidates.drop_last()), candidates.last())
    }
}

/// An optional byte string.
pub open spec fn opt_bytes(v: Option<Vec<u8>>) -> Option<Seq<u8>> {
    match v {
        Some(b) => Some(b@),
        None => None,
    }
}

/// The better one of the best archive so far and a new candidate.
pub fn consider(best: Option<Vec<u8>>, candidate: Option<Vec<u8>>) -> (r: Option<Vec<u8>>)
    ensures
        opt_bytes(r) == better(opt_bytes(best), opt_bytes(candidate)),
{
    match candidate {
        Some(c) => {
            if !is_cpio_archive(c.as_slice()) {
                return best;
            }
            match best {
                Some(b) => {
                    if c.len() > b.len() {
                        Some(c)
                    } else {
                        Some(b)
                    }
                },
                None => Some(c),
            }
        },
        None => best,
    }
}

/// What every embedded stream of a kernel image decompresses to: first the gzip
/// streams, then the legacy LZ4 streams, each by position.
pub open spec fn embedded_candidates(kernel: Seq<u8>) -> Seq<Option<Seq<u8>>> {
    positions(kernel, gzip_magic(), kernel.len() as int).map_values(
        |i: int| gunzipped(kernel.skip(i)),
    ) + positions(kernel, lz4_magic(), kernel.len() as int).map_values(
        |i: int| lz4_stream(kernel.skip(i)),
    )
}

proof fn lemma_best_of_push(candidates: Seq<Option<Seq<u8>>>, c: Option<Seq<u8>>)
    ensures
        best_of(candidates.push(c)) == better(best_of(candidates), c),
{
    assert(candidates.push(c).drop_last() =~= candidates);
}

/// Extracts the initial RAM file system that is embedded in a kernel image: the
/// largest cpio archive among what its gzip and legacy LZ4 streams decompress to.
/// This passes over small compressed blobs and over bytes that only look like the
/// beginning of a stream.
pub fn extract_initramfs(kernel: &[u8]) -> (r: Option<Vec<u8>>)
    ensures
        opt_bytes(r) == best_of(embedded_candidates(kernel@)),
{
    let gzip = [0x1fu8, 0x8b, 8];
    let lz4 = [0x02u8, 0x21, 0x4c, 0x18];
    assert(gzip@ =~= gzip_magic());
    assert(lz4@ =~= lz4_magic());
    let gzip_offsets = scan_offsets(kernel, gzip.as_slice());
    let lz4_offsets = scan_offsets(kernel, lz4.as_slice());
    let ghost gz = positions(kernel@, gzip_magic(), kernel@.len() as int).map_values(
        |i: int| gunzipped(kernel@.skip(i)),
    );
    let ghost lz = positions(kernel@, lz4_magic(), kernel@.len() as int).map_values(
        |i: int| lz4_stream(kernel@.skip(i)),
    );
    let mut best: Option<Vec<u8>> = None;
    let mut i: usize = 0;
    proof {
        lemma_positions_are_inside(kernel@, gzip_magic(), kernel@.len() as int);
        lemma_positions_are_inside(kernel@, lz4_magic(), kernel@.len() as int);
    }
    assert forall|j: int| 0 <= j < gz.len() implies #[trigger] gz[j] == gunzipped(
        kernel@.skip(gzip_offsets@[j] as int),
    ) && gzip_offsets@[j] <= kernel@.len() by {
        assert(as_ints(gzip_offsets@)[j] == gzip_offsets@[j]);
    }
    assert forall|j: int| 0 <= j < lz.len() implies #[trigger] lz[j] == lz4_stream(
        kernel@.skip(lz4_offsets@[j] as int),
    ) && lz4_offsets@[j] <= kernel@.len() by {
        assert(as_ints(lz4_offsets@)[j] == lz4_offsets@[j]);
    }
    assert(gz.take(0) =~= Seq::empty());
    while i < gzip_offsets.len()
        invariant
            0 <= i <= gzip_offsets@.len(),
            gz.len() == gzip_offsets@.len(),
            forall|j: int|
                0 <= j < gz.len() ==> #[trigger] gz[j] == gunzipped(
                    kernel@.skip(gzip_offsets@[j] as int),
                ) && gzip_offsets@[j] <= kernel@.len(),
            opt_bytes(best) == best_of(gz.take(i as int)),
        decreases gzip_offsets@.len() - i,
    {
        let at: usize = gzip_offsets[i];
        assert(gz[i as int] == gunzipped(kernel@.skip(at as int)));
        let rest = vstd::slice::slice_subrange(kernel, at, kernel.len());
        assert(rest@ =~= kernel@.skip(at as int));
        best = consider(best, gunzip(rest));
        proof {
            lemma_best_of_push(gz.take(i as int), gz[i as int]);
            assert(gz.take(i + 1) =~= gz.take(i as int).push(gz[i as int]));
        }
        i = i + 1;
    }
    assert((gz + lz).take(gz.len() as int) =~= gz.take(gz.len() as int));
    let mut j: usize = 0;
    while j < lz4_offsets.len()
        invariant
            0 <= j <= lz4_offsets@.len(),
            lz.len() == lz4_offsets@.len(),
            forall|k: int|
                0 <= k < lz.len() ==> #[trigger] lz[k] == lz4_stream(
                    kernel@.skip(lz4_offsets@[k] as int),
                ) && lz4_offsets@[k] <= kernel@.len(),
            opt_bytes(best) == best_of((gz + lz).take(gz.len() + j)),
        decreases lz4_offsets@.len() - j,
    {
        let at: usize = lz4_offsets[j];
        assert(lz[j as int] == lz4_stream(kernel@.skip(at as int)));
        let rest = vstd::slice::slice_subrange(kernel, at, kernel.len());
        assert(rest@ =~= kernel@.skip(at as int));
        best = consider(best, decompress_lz4_legacy(rest));
        proof {
            let all = gz + lz;
            lemma_best_of_push(all.take(gz.len() + j), all[gz.len() + j]);
            assert(all.take(gz.len() + j + 1) =~= all.take(gz.len() + j).push(all[gz.len() + j]));
        }
        j = j + 1;
    }
    assert((gz + lz).take((gz + lz).len() as int) =~= gz + lz);
    best
}

proof fn lemma_positions_are_inside(data: Seq<u8>, magic: Seq<u8>, n: int)
    ensures
        forall|i: int|
            0 <= i < positions(data, magic, n).len() ==> 0 <= #[trigger] positions(
                data,
                magic,
                n,
            )[i] < n && stands_at(data, magic, positions(data, magic, n)[i]),
    decreases n,
{
    if n > 0 {
        lemma_positions_are_inside(data, magic, n - 1);
        let before = positions(data, magic, n - 1);
        let all = positions(data, magic, n);
        assert forall|i: int| 0 <= i < all.len() implies 0 <= #[trigger] all[i] < n && stands_at(
            data,
            magic,
            all[i],
        ) by {
            if i < before.len() {
                assert(all[i] == before[i]);
            }
        }
    }
}

/// The best candidate is a cpio archive, and no cpio archive among the candidates is
/// longer. There is one as soon as any candidate is a cpio archive.
pub proof fn the_largest_archive_wins(candidates: Seq<Option<Seq<u8>>>)
    ensures
        best_of(candidates) matches Some(b) ==> is_cpio(b) && candidates.contains(Some(b)),
        forall|i: int|
            0 <= i < candidates.len() && (#[trigger] candidates[i]) is Some && is_cpio(
                candidates[i]->0,
            ) ==> best_of(candidates) is Some && candidates[i]->0.len() <= best_of(
                candidates,
            )->0.len(),
    decreases candidates.len(),
{
    if candidates.len() > 0 {
        let before = candidates.drop_last();
        the_largest_archive_wins(before);
        assert forall|i: int|
            0 <= i < candidates.len() && (#[trigger] candidates[i]) is Some && is_cpio(
                candidates[i]->0,
            ) implies best_of(candidates) is Some && candidates[i]->0.len() <= best_of(
            candidates,
        )->0.len() by {
            if i < before.len() {
                assert(before[i] == candidates[i]);
            }
        }
        if best_of(candidates) is Some {
            let b = best_of(candidates)->0;
            if candidates.last() == Some(b) {
                assert(candidates[candidates.len() - 1] == Some(b));
            } else {
                assert(before.contains(Some(b)));
                let k = choose|k: int| 0 <= k < before.len() && before[k] == Some(b);
                assert(candidates[k] == Some(b));
            }
        }
    }
}

/// The archive that a file holds: the file itself, if it is a cpio archive, or what
/// it decompresses to.
pub open spec fn archive_in(file: Seq<u8>) -> Option<Seq<u8>> {
    if is_cpio(file) {
        Some(file)
    } else {
        gunzipped(file)
    }
}

/// The archive that a file holds.
pub fn open_archive(file: Vec<u8>) -> (r: Option<Vec<u8>>)
    ensures
        opt_bytes(r) == archive_in(file@),
{
    if is_cpio_archive(file.as_slice()) {
        Some(file)
    } else {
        gunzip(file.as_slice())
    }
}

/// The digits of a number field: a plus sign may stand in front.
pub open spec fn field_digits(field: Seq<u8>) -> Seq<u8> {
    if field.len() > 0 && field[0] == 0x2b {
        field.skip(1)
    } else {
        field
    }
}

/// A row of at least one hexadecimal digit, and of nothing else.
pub open spec fn is_hex(digits: Seq<u8>) -> bool {
    digits.len() > 0 && forall|i: int|
        0 <= i < digits.len() ==> text::hex_digit_value(#[trigger] digits[i]) is Some
}

/// The number that a field of hexadecimal digits stands for. Anything else counts
/// as 0.
pub open spec fn hex8_value(field: Seq<u8>) -> nat {
    if is_hex(field_digits(field)) {
        hex_value(field_digits(field))
    } else {
        0
    }
}

/// The number that a row of hexadecimal digits stands for.
pub open spec fn hex_value(digits: Seq<u8>) -> nat
    decreases digits.len(),
{
    if digits.len() == 0 {
        0
    } else {
        hex_value(digits.drop_last()) * 16 + text::hex_digit_value(digits.last())->0 as nat
    }
}

/// Reads eight hexadecimal digits.
pub fn parse_hex8(field: &[u8]) -> (r: u64)
    requires
        field@.len() == 8,
    ensures
        r == hex8_value(field@),
        r <= u32::MAX,
{
    let from: usize = if field[0] == 0x2b {
        1
    } else {
        0
    };
    let ghost digits = field@.skip(from as int);
    let mut value: u64 = 0;
    let mut i: usize = from;
    assert(digits =~= field_digits(field@));
    assert(digits.take(0) =~= Seq::empty());
    let ghost mut bound: nat = 1;
    proof {
        vstd::arithmetic::power::lemma_pow0(16);
    }
    while i < 8
        invariant
            field@.len() == 8,
            from <= i <= 8,
            from <= 1,
            digits == field@.skip(from as int),
            digits == field_digits(field@),
            value == hex_value(digits.take(i - from)),
            value < bound,
            bound == vstd::arithmetic::power::pow(16, (i - from) as nat),
            forall|j: int|
                0 <= j < i - from ==> text::hex_digit_value(#[trigger] digits[j]) is Some,
        decreases 8 - i,
    {
        assert(digits[i - from] == field@[i as int]);
        match hex_digit(field[i]) {
            Some(d) => {
                proof {
                    vstd::arithmetic::power::lemma_pow_increases(
                        16,
                        (i - from) as nat,
                        7,
                    );
                    assert(vstd::arithmetic::power::pow(16, 7) == 0x1000_0000) by {
                        lemma_powers_of_16();
                    }
                    let t = digits.take(i + 1 - from);
                    assert(t.drop_last() =~= digits.take(i - from));
                    assert(t.last() == field@[i as int]);
                    assert(vstd::arithmetic::power::pow(16, (i + 1 - from) as nat) == 16
                        * vstd::arithmetic::power::pow(16, (i - from) as nat)) by {
                        reveal(vstd::arithmetic::power::pow);
                    }
                    bound = bound * 16;
                }
                value = value * 16 + d as u64;
            },
            None => {
                assert(text::hex_digit_value(digits[i - from]) is None);
                return 0;
            },
        }
        i = i + 1;
    }
    proof {
        assert(digits.take(digits.len() as int) =~= digits);
        vstd::arithmetic::power::lemma_pow_increases(16, (8 - from) as nat, 8);
        lemma_powers_of_16();
    }
    value
}

proof fn lemma_powers_of_16()
    ensures
        vstd::arithmetic::power::pow(16, 7) == 0x1000_0000,
        vstd::arithmetic::power::pow(16, 8) == 0x1_0000_0000,
{
    reveal_with_fuel(vstd::arithmetic::power::pow, 9);
}

/// How long the entry at `pos` of an archive is: its header, its name and its
/// content, name and content filled up to a multiple of four.
pub open spec fn entry_length(data: Seq<u8>, pos: int) -> int {
    let name_end = CPIO_HEADER + hex8_value(data.subrange(pos + 94, pos + 102));
    let size = hex8_value(data.subrange(pos + 54, pos + 62)) as int;
    filled_up(name_end) + filled_up(size)
}

/// The next multiple of four.
pub open spec fn filled_up(n: int) -> int {
    (n + 3) / 4 * 4
}

/// Where the entries of an archive begin, from `pos` on. Bytes between entries are
/// passed over one by one.
pub open spec fn entry_starts(data: Seq<u8>, pos: int) -> Seq<int>
    decreases (if pos <= data.len() { data.len() - pos } else { 0 }),
{
    if pos < 0 || pos + CPIO_HEADER > data.len() {
        Seq::empty()
    } else if stands_at(data, newc_magic(), pos) {
        seq![pos] + entry_starts(data, pos + entry_length(data, pos))
    } else {
        entry_starts(data, pos + 1)
    }
}

/// Byte `i` belongs to the owner or the group of one of the entries.
pub open spec fn in_owner_field(starts: Seq<int>, i: int) -> bool {
    exists|k: int| 0 <= k < starts.len() && #[trigger] starts[k] + 22 <= i < starts[k] + 38
}

/// The archive with every entry owned by user 0 and group 0, and otherwise unchanged.
pub open spec fn owned_by_root(data: Seq<u8>) -> Seq<u8> {
    Seq::new(
        data.len(),
        |i: int|
            if in_owner_field(entry_starts(data, 0), i) {
                0x30u8
            } else {
                data[i]
            },
    )
}

proof fn lemma_starts_are_ahead(data: Seq<u8>, pos: int)
    requires
        0 <= pos,
    ensures
        forall|k: int|
            0 <= k < entry_starts(data, pos).len() ==> pos <= #[trigger] entry_starts(
                data,
                pos,
            )[k] && entry_starts(data, pos)[k] + CPIO_HEADER <= data.len(),
    decreases (if pos <= data.len() { data.len() - pos } else { 0 }),
{
    if pos + CPIO_HEADER <= data.len() {
        if stands_at(data, newc_magic(), pos) {
            let next = pos + entry_length(data, pos);
            lemma_starts_are_ahead(data, next);
            assert forall|k: int| 0 <= k < entry_starts(data, pos).len() implies pos
                <= #[trigger] entry_starts(data, pos)[k] && entry_starts(data, pos)[k]
                + CPIO_HEADER <= data.len() by {
                if k > 0 {
                    assert(entry_starts(data, pos)[k] == entry_starts(data, next)[k - 1]);
                }
            }
        } else {
            lemma_starts_are_ahead(data, pos + 1);
            assert forall|k: int| 0 <= k < entry_starts(data, pos).len() implies pos
                <= #[trigger] entry_starts(data, pos)[k] && entry_starts(data, pos)[k]
                + CPIO_HEADER <= data.len() by {
                assert(entry_starts(data, pos)[k] == entry_starts(data, pos + 1)[k]);
            }
        }
    }
}

/// The next multiple of four.
fn fill_up(n: u64) -> (r: u64)
    requires
        n <= 0x2_0000_0000,
    ensures
        r == filled_up(n as int),
{
    (n + 3) / 4 * 4
}

/// Sets sixteen bytes to the digit zero.
fn zero_owner(data: &mut Vec<u8>, at: usize)
    requires
        at + 16 <= old(data)@.len(),
    ensures
        final(data)@.len() == old(data)@.len(),
        forall|i: int|
            0 <= i < old(data)@.len() ==> #[trigger] final(data)@[i] == (if at <= i < at + 16 {
                0x30u8
            } else {
                old(data)@[i]
            }),
{
    let ghost before = data@;
    let len: usize = data.len();
    let mut i: usize = 0;
    while i < 16
        invariant
            i <= 16,
            at + 16 <= len == data@.len(),
            data@.len() == before.len(),
            forall|j: int|
                0 <= j < before.len() ==> #[trigger] data@[j] == (if at <= j < at + i {
                    0x30u8
                } else {
                    before[j]
                }),
        decreases 16 - i,
    {
        data.set(at + i, 0x30);
        i = i + 1;
    }
}

/// Gives every entry of a "newc" archive to user 0 and group 0.
pub fn fix_cpio_ownership(data: &mut Vec<u8>)
    ensures
        final(data)@ == owned_by_root(old(data)@),
{
    let ghost orig = data@;
    let ghost starts = entry_starts(orig, 0);
    let ghost mut done: Seq<int> = Seq::empty();
    let magic = [0x30u8, 0x37, 0x30, 0x37, 0x30, 0x31];
    assert(magic@ =~= newc_magic());
    let mut pos: usize = 0;
    assert(done + entry_starts(orig, 0) =~= starts);
    while data.len() >= CPIO_HEADER && pos <= data.len() - CPIO_HEADER
        invariant
            magic@ == newc_magic(),
            orig == old(data)@,
            starts == entry_starts(orig, 0),
            data@.len() == orig.len(),
            done + entry_starts(orig, pos as int) == starts,
            forall|k: int|
                0 <= k < done.len() ==> 0 <= #[trigger] done[k] && done[k] + CPIO_HEADER <= pos,
            forall|i: int|
                0 <= i < orig.len() ==> #[trigger] data@[i] == (if in_owner_field(done, i) {
                    0x30u8
                } else {
                    orig[i]
                }),
        decreases (if pos <= data@.len() { data@.len() - pos } else { 0 }),
    {
        proof {
            assert forall|i: int| pos <= i < orig.len() implies #[trigger] data@[i] == orig[i] by {
                if in_owner_field(done, i) {
                    let k = choose|k: int|
                        0 <= k < done.len() && #[trigger] done[k] + 22 <= i < done[k] + 38;
                    assert(done[k] + CPIO_HEADER <= pos);
                }
            }
            assert(data@.subrange(pos as int, pos + 6) =~= orig.subrange(pos as int, pos + 6));
        }
        if !bytes_eq(
            vstd::slice::slice_subrange(data.as_slice(), pos, pos + 6),
            magic.as_slice(),
        ) {
            pos = pos + 1;
            continue ;
        }
        assert(data@.subrange(pos + 94, pos + 102) =~= orig.subrange(pos + 94, pos + 102));
        assert(data@.subrange(pos + 54, pos + 62) =~= orig.subrange(pos + 54, pos + 62));
        let name_size: u64 = parse_hex8(
            vstd::slice::slice_subrange(data.as_slice(), pos + 94, pos + 102),
        );
        let file_size: u64 = parse_hex8(
            vstd::slice::slice_subrange(data.as_slice(), pos + 54, pos + 62),
        );
        let ghost before = data@;
        zero_owner(data, pos + 22);
        let length: u64 = fill_up(CPIO_HEADER as u64 + name_size) + fill_up(file_size);
        proof {
            let next = pos + entry_length(orig, pos as int);
            let grown = done.push(pos as int);
            assert(done + entry_starts(orig, pos as int) =~= grown + entry_starts(orig, next));
            assert forall|i: int| 0 <= i < orig.len() implies #[trigger] data@[i] == (
            if in_owner_field(grown, i) {
                0x30u8
            } else {
                orig[i]
            }) by {
                assert(data@[i] == (if pos + 22 <= i < pos + 38 {
                    0x30u8
                } else {
                    before[i]
                }));
                if in_owner_field(done, i) {
                    let k = choose|k: int|
                        0 <= k < done.len() && #[trigger] done[k] + 22 <= i < done[k] + 38;
                    assert(grown[k] == done[k]);
                }
                if pos + 22 <= i < pos + 38 {
                    assert(grown[done.len() as int] == pos);
                }
                if in_owner_field(grown, i) && !in_owner_field(done, i) {
                    let k = choose|k: int|
                        0 <= k < grown.len() && #[trigger] grown[k] + 22 <= i < grown[k] + 38;
                    if k < done.len() {
                        assert(done[k] == grown[k]);
                    }
                }
            }
            assert forall|k: int| 0 <= k < grown.len() implies 0 <= #[trigger] grown[k] && grown[k]
                + CPIO_HEADER <= next by {
                if k < done.len() {
                    assert(grown[k] == done[k]);
                }
            }
            done = grown;
        }
        if length > (data.len() - pos) as u64 {
            assert(entry_starts(orig, pos + entry_length(orig, pos as int)) =~= Seq::empty());
            proof {
                assert(done + Seq::<int>::empty() =~= done);
                assert(data@ =~= owned_by_root(orig));
            }
            return ;
        }
        pos = pos + length as usize;
    }
    assert(entry_starts(orig, pos as int) =~= Seq::empty());
    assert(done + Seq::<int>::empty() =~= done);
    assert(data@ =~= owned_by_root(orig));
}

/// Where the entries of an archive begin does not change with their owners.
proof fn lemma_owner_keeps_starts(data: Seq<u8>, pos: int, all: Seq<int>)
    requires
        0 <= pos,
        all.len() >= entry_starts(data, pos).len(),
        all.skip(all.len() - entry_starts(data, pos).len()) == entry_starts(data, pos),
        forall|k: int|
            0 <= k < all.len() - entry_starts(data, pos).len() ==> #[trigger] all[k] + CPIO_HEADER
                <= pos,
    ensures
        entry_starts(
            Seq::new(
                data.len(),
                |i: int|
                    if in_owner_field(all, i) {
                        0x30u8
                    } else {
                        data[i]
                    },
            ),
            pos,
        ) == entry_starts(data, pos),
    decreases (if pos <= data.len() { data.len() - pos } else { 0 }),
{
    let f = |i: int|
        if in_owner_field(all, i) {
            0x30u8
        } else {
            data[i]
        };
    let changed = Seq::new(data.len(), f);
    if pos + CPIO_HEADER <= data.len() {
        let rest = entry_starts(data, pos);
        let n = all.len() - rest.len();
        lemma_starts_are_ahead(data, pos);
        assert forall|k: int| n <= k < all.len() implies #[trigger] all[k] >= pos by {
            assert(all.skip(n)[k - n] == rest[k - n]);
        }
        if stands_at(data, newc_magic(), pos) {
            let next = pos + entry_length(data, pos);
            lemma_starts_are_ahead(data, next);
            let tail = entry_starts(data, next);
            assert(rest == seq![pos] + tail);
            assert(all[n] == all.skip(n)[0]);
            assert(all[n] == pos);
            assert forall|k: int| n < k < all.len() implies #[trigger] all[k] >= next by {
                assert(all.skip(n)[k - n] == rest[k - n]);
                assert(rest[k - n] == tail[k - n - 1]);
            }
            assert forall|i: int|
                pos <= i < pos + CPIO_HEADER && !(pos + 22 <= i < pos + 38) implies
                #[trigger] changed[i] == data[i] by {
                if in_owner_field(all, i) {
                    let k = choose|k: int|
                        0 <= k < all.len() && #[trigger] all[k] + 22 <= i < all[k] + 38;
                    if k < n {
                        assert(all[k] + CPIO_HEADER <= pos);
                    } else if k == n {
                    } else {
                        assert(all[k] >= next);
                    }
                    assert(false);
                }
            }
            assert(changed.subrange(pos, pos + 6) =~= data.subrange(pos, pos + 6));
            assert(changed.subrange(pos + 94, pos + 102) =~= data.subrange(pos + 94, pos + 102));
            assert(changed.subrange(pos + 54, pos + 62) =~= data.subrange(pos + 54, pos + 62));
            assert(newc_magic().len() == 6);
            assert(all.skip(all.len() - tail.len()) =~= tail) by {
                assert forall|k: int| 0 <= k < tail.len() implies #[trigger] all.skip(
                    all.len() - tail.len(),
                )[k] == tail[k] by {
                    assert(all.skip(n)[k + 1] == rest[k + 1]);
                }
            }
            assert forall|k: int| 0 <= k < all.len() - tail.len() implies #[trigger] all[k]
                + CPIO_HEADER <= next by {}
            lemma_owner_keeps_starts(data, next, all);
        } else {
            lemma_starts_are_ahead(data, pos + 1);
            assert(rest == entry_starts(data, pos + 1));
            assert forall|i: int| pos <= i < pos + 6 implies #[trigger] changed[i] == data[i] by {
                if in_owner_field(all, i) {
                    let k = choose|k: int|
                        0 <= k < all.len() && #[trigger] all[k] + 22 <= i < all[k] + 38;
                    if k < n {
                        assert(all[k] + CPIO_HEADER <= pos);
                    } else {
                        assert(all[k] >= pos);
                    }
                    assert(false);
                }
            }
            assert(changed.subrange(pos, pos + 6) =~= data.subrange(pos, pos + 6));
            assert(newc_magic().len() == 6);
            lemma_owner_keeps_starts(data, pos + 1, all);
        }
    }
}

/// Giving an archive to user 0 a second time changes nothing.
pub proof fn ownership_fix_is_idempotent(data: Seq<u8>)
    ensures
        owned_by_root(owned_by_root(data)) == owned_by_root(data),
{
    let starts = entry_starts(data, 0);
    assert(starts.skip(0) =~= starts);
    lemma_owner_keeps_starts(data, 0, starts);
    assert(entry_starts(owned_by_root(data), 0) == starts);
    assert(owned_by_root(owned_by_root(data)) =~= owned_by_root(data));
}

/// The owner fields lie inside the headers of the entries: nothing but them changes,
/// and the archive keeps its entries.
pub proof fn ownership_fix_keeps_the_entries(data: Seq<u8>)
    ensures
        owned_by_root(data).len() == data.len(),
        entry_starts(owned_by_root(data), 0) == entry_starts(data, 0),
        forall|i: int|
            0 <= i < data.len() && !in_owner_field(entry_starts(data, 0), i) ==> #[trigger] (
            owned_by_root(data)[i]) == data[i],
{
    let starts = entry_starts(data, 0);
    assert(starts.skip(0) =~= starts);
    lemma_owner_keeps_starts(data, 0, starts);
}

/// Turns a raw archive into the file that boots: its entries are given to user 0, and
/// it is compressed.
pub fn pack_archive(raw: Vec<u8>) -> (r: Option<Vec<u8>>)
    ensures
        opt_bytes(r) == gzipped(owned_by_root(raw@)),
        r matches Some(file) ==> archive_in(file@) == Some(owned_by_root(raw@)),
{
    let mut data = raw;
    fix_cpio_ownership(&mut data);
    let packed = gzip_best(data.as_slice());
    proof {
        if packed is Some {
            lemma_gzip_is_no_cpio(packed->0@);
        }
    }
    packed
}

proof fn lemma_gzip_is_no_cpio(file: Seq<u8>)
    requires
        text::has_prefix(file, gzip_magic()),
    ensures
        !is_cpio(file),
{
    assert(file.take(3)[0] == gzip_magic()[0]);
    assert(file[0] == 0x1f);
    if text::has_prefix(file, newc_magic()) {
        assert(file.take(6)[0] == newc_magic()[0]);
    }
    if text::has_prefix(file, crc_magic()) {
        assert(file.take(6)[0] == crc_magic()[0]);
    }
}

/// What a legacy LZ4 stream holds: nothing where it is none.
pub open spec fn lz4_content(input: Seq<u8>) -> Seq<u8> {
    match lz4_stream(input) {
        Some(out) => out,
        None => Seq::empty(),
    }
}

proof fn lemma_blocks_after_a_cut(input: Seq<u8>, from: int, rest: Seq<u8>, cursor: int)
    requires
        0 <= cursor <= rest.len(),
        0 <= from,
        input.len() == from + rest.len(),
        forall|i: int| 0 <= i < rest.len() ==> input[from + i] == #[trigger] rest[i],
    ensures
        lz4_blocks(input, from + cursor) == lz4_blocks(rest, cursor),
    decreases rest.len() - cursor,
{
    if cursor + 4 <= rest.len() {
        assert(input[from + cursor] == rest[cursor]);
        assert(input[from + (cursor + 1)] == rest[cursor + 1]);
        assert(input[from + (cursor + 2)] == rest[cursor + 2]);
        assert(input[from + (cursor + 3)] == rest[cursor + 3]);
        assert(main_stream::u32_at(input, from + cursor) == main_stream::u32_at(rest, cursor));
        match lz4_block_range(rest, cursor) {
            Some((a, b)) => {
                assert(lz4_block_range(input, from + cursor) == Some((from + a, from + b)));
                assert(input.subrange(from + a, from + b) =~= rest.subrange(a, b));
                lemma_blocks_after_a_cut(input, from, rest, b);
            },
            None => {
                assert(lz4_block_range(input, from + cursor) is None);
            },
        }
    }
}

/// A block of any plausible size is part of what a legacy LZ4 stream holds: its four size
/// bytes announce up to 8 MiB and 16 bytes, it follows them, and what it decompresses to
/// stands before what the rest of the stream holds.
pub proof fn plausible_blocks_are_decompressed(
    size: Seq<u8>,
    block: Seq<u8>,
    rest: Seq<u8>,
    out: Seq<u8>,
)
    requires
        size.len() == 4,
        block.len() == size[0] + 256 * size[1] + 65_536 * size[2] + 16_777_216 * size[3],
        0 < block.len() <= 8_388_624,
        lz4_block(block, 8_388_608) == Some(out),
    ensures
        ({
            let magic = seq![0x02u8, 0x21, 0x4c, 0x18];
            let input = magic + size + block + rest;
            &&& lz4_content(input) == out + lz4_content(magic + rest)
            &&& out.len() > 0 ==> lz4_stream(input) == Some(out + lz4_content(magic + rest))
        }),
{
    let magic = seq![0x02u8, 0x21, 0x4c, 0x18];
    let input = magic + size + block + rest;
    let tail = magic + rest;
    let n = block.len() as int;
    assert(magic =~= lz4_magic());
    assert(input.take(4) =~= lz4_magic());
    assert(tail.take(4) =~= lz4_magic());
    assert(input[4] == size[0] && input[5] == size[1] && input[6] == size[2] && input[7]
        == size[3]);
    assert(main_stream::u32_at(input, 4) == n);
    assert(lz4_block_range(input, 4) == Some((8int, 8 + n)));
    assert(input.subrange(8, 8 + n) =~= block);
    lemma_blocks_after_a_cut(input, 8 + n, rest, 0);
    lemma_blocks_after_a_cut(tail, 4, rest, 0);
    assert(lz4_blocks(input, 4) == out + lz4_blocks(rest, 0));
    assert(lz4_blocks(tail, 4) == lz4_blocks(rest, 0));
    if lz4_blocks(rest, 0).len() == 0 {
        assert(lz4_blocks(rest, 0) =~= Seq::empty());
    }
    if (out + lz4_blocks(rest, 0)).len() == 0 {
        assert(out + lz4_blocks(rest, 0) =~= Seq::empty());
    }
}

/// Where the four size bytes of a legacy LZ4 stream announce nothing, more than a block can
/// have, or more than there is, and where fewer than four bytes are left, the stream ends.
pub proof fn implausible_blocks_end_the_stream(rest: Seq<u8>)
    requires
        rest.len() < 4 || ({
            let n = rest[0] + 256 * rest[1] + 65_536 * rest[2] + 16_777_216 * rest[3];
            n == 0 || n > 8_388_624 || 4 + n > rest.len() || lz4_block(
                rest.subrange(4, 4 + n),
                8_388_608,
            ) is None
        }),
    ensures
        lz4_stream(seq![0x02u8, 0x21, 0x4c, 0x18] + rest) is None,
{
    let input = seq![0x02u8, 0x21, 0x4c, 0x18] + rest;
    if rest.len() >= 4 {
        assert(input[4] == rest[0] && input[5] == rest[1] && input[6] == rest[2] && input[7]
            == rest[3]);
        let n = rest[0] + 256 * rest[1] + 65_536 * rest[2] + 16_777_216 * rest[3];
        assert(main_stream::u32_at(input, 4) == n);
        if 4 + n <= rest.len() {
            assert(input.subrange(8, 8 + n) =~= rest.subrange(4, 4 + n));
        }
    }
    assert(lz4_blocks(input, 4).len() == 0);
}

/// Only bytes that begin with the magic are a legacy LZ4 stream.
pub proof fn lz4_streams_have_their_magic(input: Seq<u8>)
    ensures
        lz4_stream(input) is Some ==> input.len() >= 4 && input[0] == 0x02 && input[1] == 0x21
            && input[2] == 0x4c && input[3] == 0x18,
{
    if lz4_stream(input) is Some {
        let t = input.take(4);
        assert(t == lz4_magic());
        assert(t[0] == 0x02 && t[1] == 0x21 && t[2] == 0x4c && t[3] == 0x18);
    }
}

proof fn lemma_positions_are_complete(data: Seq<u8>, magic: Seq<u8>, n: int, i: int)
    requires
        0 <= i < n,
        stands_at(data, magic, i),
    ensures
        exists|k: int|
            0 <= k < positions(data, magic, n).len() && #[trigger] positions(data, magic, n)[k]
                == i,
    decreases n,
{
    let all = positions(data, magic, n);
    if i == n - 1 {
        assert(all[all.len() - 1] == i);
    } else {
        lemma_positions_are_complete(data, magic, n - 1, i);
        let before = positions(data, magic, n - 1);
        let k = choose|k: int| 0 <= k < before.len() && before[k] == i;
        assert(all[k] == i);
    }
}

/// A scan finds a magic wherever its bytes stand, and nowhere else, and lists each place
/// once, in ascending order.
pub proof fn scans_find_every_place(data: Seq<u8>, magic: Seq<u8>)
    requires
        magic.len() > 0,
    ensures
        forall|i: int|
            #![trigger positions(data, magic, data.len() as int).contains(i)]
            positions(data, magic, data.len() as int).contains(i) <==> (0 <= i && i + magic.len()
                <= data.len() && forall|k: int|
                0 <= k < magic.len() ==> data[i + k] == #[trigger] magic[k]),
        forall|a: int, b: int|
            0 <= a < b < positions(data, magic, data.len() as int).len() ==> #[trigger] positions(
                data,
                magic,
                data.len() as int,
            )[a] < #[trigger] positions(data, magic, data.len() as int)[b],
{
    let n = data.len() as int;
    let all = positions(data, magic, n);
    lemma_positions_are_inside(data, magic, n);
    lemma_positions_ascend(data, magic, n);
    assert forall|i: int| #![trigger all.contains(i)] all.contains(i) <==> (0 <= i && i
        + magic.len() <= data.len() && forall|k: int|
        0 <= k < magic.len() ==> data[i + k] == #[trigger] magic[k]) by {
        if all.contains(i) {
            let k = choose|k: int| 0 <= k < all.len() && all[k] == i;
            assert(stands_at(data, magic, all[k]));
            assert forall|q: int| 0 <= q < magic.len() implies data[i + q]
                == #[trigger] magic[q] by {
                assert(data.subrange(i, i + magic.len() as int)[q] == data[i + q]);
            }
        }
        if 0 <= i && i + magic.len() <= data.len() && forall|k: int|
            0 <= k < magic.len() ==> data[i + k] == #[trigger] magic[k] {
            assert(data.subrange(i, i + magic.len() as int) =~= magic);
            lemma_positions_are_complete(data, magic, n, i);
        }
    }
}

proof fn lemma_positions_ascend(data: Seq<u8>, magic: Seq<u8>, n: int)
    ensures
        forall|a: int, b: int|
            0 <= a < b < positions(data, magic, n).len() ==> #[trigger] positions(data, magic, n)[a]
                < #[trigger] positions(data, magic, n)[b],
    decreases n,
{
    if n > 0 {
        lemma_positions_ascend(data, magic, n - 1);
        lemma_positions_are_inside(data, magic, n - 1);
        let before = positions(data, magic, n - 1);
        let all = positions(data, magic, n);
        assert forall|a: int, b: int| 0 <= a < b < all.len() implies #[trigger] all[a]
            < #[trigger] all[b] by {
            assert(all[a] == before[a]);
            if b < before.len() {
                assert(all[b] == before[b]);
            }
        }
    }
}

/// The bytes begin like a cpio archive: "070701" or "070702".
pub open spec fn looks_like_cpio(data: Seq<u8>) -> bool {
    data.len() >= 6 && data[0] == '0' as u8 && data[1] == '7' as u8 && data[2] == '0' as u8
        && data[3] == '7' as u8 && data[4] == '0' as u8 && (data[5] == '1' as u8 || data[5]
        == '2' as u8)
}

proof fn lemma_cpio_bytes(data: Seq<u8>)
    ensures
        is_cpio(data) <==> looks_like_cpio(data),
{
    if is_cpio(data) {
        let t = data.take(6);
        assert(t[0] == data[0] && t[1] == data[1] && t[2] == data[2] && t[3] == data[3] && t[4]
            == data[4] && t[5] == data[5]);
    }
    if looks_like_cpio(data) {
        if data[5] == 0x31 {
            assert(data.take(6) =~= newc_magic());
        } else {
            assert(data.take(6) =~= crc_magic());
        }
    }
}

/// An archive that is embedded anywhere in a kernel image, gzip or legacy LZ4, is found: what
/// is extracted is a cpio archive, and none of the embedded archives is longer.
pub proof fn embedded_archives_are_found(kernel: Seq<u8>, i: int, archive: Seq<u8>)
    requires
        0 <= i < kernel.len(),
        looks_like_cpio(archive),
        ({
            ||| i + 3 <= kernel.len() && kernel[i] == 0x1f && kernel[i + 1] == 0x8b && kernel[i + 2]
                == 8 && gunzipped(kernel.skip(i)) == Some(archive)
            ||| lz4_stream(kernel.skip(i)) == Some(archive)
        }),
    ensures
        best_of(embedded_candidates(kernel)) matches Some(b) && looks_like_cpio(b) && b.len()
            >= archive.len(),
{
    let all = embedded_candidates(kernel);
    let n = kernel.len() as int;
    let gz = positions(kernel, gzip_magic(), n);
    let lz = positions(kernel, lz4_magic(), n);
    the_largest_archive_wins(all);
    lemma_cpio_bytes(archive);
    if i + 3 <= kernel.len() && kernel[i] == 0x1f && kernel[i + 1] == 0x8b && kernel[i + 2] == 8
        && gunzipped(kernel.skip(i)) == Some(archive) {
        assert(kernel.subrange(i, i + 3) =~= gzip_magic());
        lemma_positions_are_complete(kernel, gzip_magic(), n, i);
        let k = choose|k: int| 0 <= k < gz.len() && gz[k] == i;
        assert(all[k] == Some(archive));
    } else {
        lz4_streams_have_their_magic(kernel.skip(i));
        assert(kernel.skip(i)[0] == kernel[i] && kernel.skip(i)[1] == kernel[i + 1]
            && kernel.skip(i)[2] == kernel[i + 2] && kernel.skip(i)[3] == kernel[i + 3]);
        assert(kernel.subrange(i, i + 4) =~= lz4_magic());
        lemma_positions_are_complete(kernel, lz4_magic(), n, i);
        let k = choose|k: int| 0 <= k < lz.len() && lz[k] == i;
        assert(all[gz.len() + k] == Some(archive));
    }
    lemma_cpio_bytes(best_of(all)->0);
}

/// What is extracted from a kernel image is a cpio archive that one of its gzip or legacy LZ4
/// streams decompresses to.
pub proof fn extracted_archives_are_embedded(kernel: Seq<u8>, archive: Seq<u8>)
    requires
        best_of(embedded_candidates(kernel)) == Some(archive),
    ensures
        looks_like_cpio(archive),
        exists|i: int|
            0 <= i < kernel.len() && (gunzipped(#[trigger] kernel.skip(i)) == Some(archive)
                || lz4_stream(kernel.skip(i)) == Some(archive)),
{
    let all = embedded_candidates(kernel);
    let n = kernel.len() as int;
    let gz = positions(kernel, gzip_magic(), n);
    let lz = positions(kernel, lz4_magic(), n);
    the_largest_archive_wins(all);
    lemma_cpio_bytes(archive);
    lemma_positions_are_inside(kernel, gzip_magic(), n);
    lemma_positions_are_inside(kernel, lz4_magic(), n);
    let k = choose|k: int| 0 <= k < all.len() && all[k] == Some(archive);
    if k < gz.len() {
        let i = gz[k];
        assert(all[k] == gunzipped(kernel.skip(i)));
    } else {
        let i = lz[k - gz.len()];
        assert(all[k] == lz4_stream(kernel.skip(i)));
    }
}

/// A file is opened as the archive that it is, if it begins like one, and else as what it
/// decompresses to.
pub proof fn archives_are_opened(file: Seq<u8>)
    ensures
        looks_like_cpio(file) ==> archive_in(file) == Some(file),
        !looks_like_cpio(file) ==> archive_in(file) == gunzipped(file),
{
    lemma_cpio_bytes(file);
}

/// The value of a hexadecimal digit.
pub open spec fn nibble(c: u8) -> Option<int> {
    if '0' as u8 <= c <= '9' as u8 {
        Some(c - '0' as u8)
    } else if 'a' as u8 <= c <= 'f' as u8 {
        Some(c - 'a' as u8 + 10)
    } else if 'A' as u8 <= c <= 'F' as u8 {
        Some(c - 'A' as u8 + 10)
    } else {
        None
    }
}

/// Eight hexadecimal digits of either case are read as the number that they stand for.
pub proof fn hexadecimal_fields_are_read(field: Seq<u8>)
    requires
        field.len() == 8,
        forall|i: int| 0 <= i < 8 ==> nibble(#[trigger] field[i]) is Some,
    ensures
        hex8_value(field) == nibble(field[0])->0 * 0x1000_0000 + nibble(field[1])->0 * 0x100_0000
            + nibble(field[2])->0 * 0x10_0000 + nibble(field[3])->0 * 0x1_0000 + nibble(
            field[4],
        )->0 * 0x1000 + nibble(field[5])->0 * 0x100 + nibble(field[6])->0 * 0x10 + nibble(
            field[7],
        )->0,
{
    assert(field[0] != 0x2b) by {
        assert(nibble(field[0]) is Some);
    }
    assert(field_digits(field) == field);
    assert forall|i: int| 0 <= i < 8 implies text::hex_digit_value(#[trigger] field[i]) is Some
        && text::hex_digit_value(field[i])->0 == nibble(field[i])->0 by {}
    assert(field.take(8) =~= field);
    assert(field.take(0) =~= Seq::empty());
    lemma_hex_step(field, 0);
    lemma_hex_step(field, 1);
    lemma_hex_step(field, 2);
    lemma_hex_step(field, 3);
    lemma_hex_step(field, 4);
    lemma_hex_step(field, 5);
    lemma_hex_step(field, 6);
    lemma_hex_step(field, 7);
}

proof fn lemma_hex_step(field: Seq<u8>, i: int)
    requires
        0 <= i < field.len(),
    ensures
        hex_value(field.take(i + 1)) == hex_value(field.take(i)) * 16 + text::hex_digit_value(
            field[i],
        )->0 as nat,
{
    assert(field.take(i + 1).drop_last() =~= field.take(i));
    assert(field.take(i + 1).last() == field[i]);
}

proof fn lemma_starts_after_a_cut(data: Seq<u8>, from: int, rest: Seq<u8>, pos: int)
    requires
        0 <= pos,
        0 <= from,
        data.len() == from + rest.len(),
        forall|i: int| 0 <= i < rest.len() ==> data[from + i] == #[trigger] rest[i],
    ensures
        entry_starts(data, from + pos).len() == entry_starts(rest, pos).len(),
        forall|k: int|
            0 <= k < entry_starts(rest, pos).len() ==> entry_starts(data, from + pos)[k] == from
                + #[trigger] entry_starts(rest, pos)[k],
    decreases (if pos <= rest.len() { rest.len() - pos } else { 0 }),
{
    if pos + CPIO_HEADER <= rest.len() {
        assert(newc_magic().len() == 6);
        assert(data.subrange(from + pos, from + pos + 6) =~= rest.subrange(pos, pos + 6));
        assert(data.subrange(from + pos + 94, from + pos + 102) =~= rest.subrange(
            pos + 94,
            pos + 102,
        ));
        assert(data.subrange(from + pos + 54, from + pos + 62) =~= rest.subrange(
            pos + 54,
            pos + 62,
        ));
        if stands_at(rest, newc_magic(), pos) {
            let next = pos + entry_length(rest, pos);
            assert(entry_length(data, from + pos) == entry_length(rest, pos));
            lemma_starts_after_a_cut(data, from, rest, next);
            let a = entry_starts(data, from + next);
            let b = entry_starts(rest, next);
            assert(entry_starts(data, from + pos) == seq![from + pos] + a);
            assert(entry_starts(rest, pos) == seq![pos] + b);
            assert forall|k: int| 0 <= k < entry_starts(rest, pos).len() implies entry_starts(
                data,
                from + pos,
            )[k] == from + #[trigger] entry_starts(rest, pos)[k] by {
                if k > 0 {
                    assert(entry_starts(rest, pos)[k] == b[k - 1]);
                    assert(entry_starts(data, from + pos)[k] == a[k - 1]);
                }
            }
        } else {
            lemma_starts_after_a_cut(data, from, rest, pos + 1);
        }
    }
}

/// An entry of a "newc" archive loses its owner and its group, and nothing else, and the
/// entries behind it are treated in the same way: `name_size` and `file_size` are what its
/// header says of its name and its content, each filled up to a multiple of four.
pub proof fn entries_are_given_to_root_one_by_one(
    entry: Seq<u8>,
    rest: Seq<u8>,
    name_size: nat,
    file_size: nat,
)
    requires
        entry.len() >= 110,
        entry[0] == '0' as u8,
        entry[1] == '7' as u8,
        entry[2] == '0' as u8,
        entry[3] == '7' as u8,
        entry[4] == '0' as u8,
        entry[5] == '1' as u8,
        hex8_value(entry.subrange(94, 102)) == name_size,
        hex8_value(entry.subrange(54, 62)) == file_size,
        entry.len() == (110 + name_size + 3) / 4 * 4 + (file_size + 3) / 4 * 4,
    ensures
        owned_by_root(entry + rest) == entry.take(22) + Seq::new(16, |i: int| '0' as u8)
            + entry.skip(38) + owned_by_root(rest),
{
    let data = entry + rest;
    let from = entry.len() as int;
    assert(newc_magic().len() == 6);
    assert(data.subrange(0, 6) =~= newc_magic());
    assert(data.subrange(94, 102) =~= entry.subrange(94, 102));
    assert(data.subrange(54, 62) =~= entry.subrange(54, 62));
    assert(entry_length(data, 0) == from);
    let a = entry_starts(data, from);
    let b = entry_starts(rest, 0);
    let all = entry_starts(data, 0);
    assert(all == seq![0int] + a);
    lemma_starts_after_a_cut(data, from, rest, 0);
    lemma_starts_are_ahead(data, from);
    lemma_starts_are_ahead(rest, 0);
    let l = owned_by_root(data);
    let r = entry.take(22) + Seq::new(16, |i: int| '0' as u8) + entry.skip(38) + owned_by_root(
        rest,
    );
    assert(l.len() == r.len());
    assert forall|i: int| 0 <= i < l.len() implies l[i] == r[i] by {
        if i < from {
            assert(all[0] == 0);
            if in_owner_field(all, i) {
                let k = choose|k: int|
                    0 <= k < all.len() && #[trigger] all[k] + 22 <= i < all[k] + 38;
                if k > 0 {
                    assert(all[k] == a[k - 1]);
                }
                assert(22 <= i < 38);
            }
        } else {
            let j = i - from;
            if in_owner_field(all, i) {
                let k = choose|k: int|
                    0 <= k < all.len() && #[trigger] all[k] + 22 <= i < all[k] + 38;
                assert(k > 0);
                assert(all[k] == a[k - 1]);
                assert(a[k - 1] == from + b[k - 1]);
                assert(in_owner_field(b, j));
            }
            if in_owner_field(b, j) {
                let k = choose|k: int| 0 <= k < b.len() && #[trigger] b[k] + 22 <= j < b[k] + 38;
                assert(a[k] == from + b[k]);
                assert(all[k + 1] == a[k]);
                assert(in_owner_field(all, i));
            }
            assert(r[i] == owned_by_root(rest)[j]);
            assert(data[i] == rest[j]);
        }
    }
    assert(l =~= r);
}

/// Why an archive could not be rewritten.
#[derive(Clone, Debug)]
pub enum PatchError {
    /// An operation on a file failed, with the host's message.
    Io(String),
    /// The firmware could not be extracted.
    Extract(String),
    /// A bundled resource is missing.
    MissingResource(String),
    /// A command reported failure.
    CommandFailed(String),
}

impl PatchError {
    /// What the operator is told.
    pub fn message(&self) -> (r: String)
        ensures
            r@ == (match *self {
                PatchError::Io(e) => "I/O: "@ + e@,
                PatchError::Extract(e) => "extract: "@ + e@,
                PatchError::MissingResource(s) => "missing bundled resource: "@ + s@,
                PatchError::CommandFailed(s) => "command failed: "@ + s@,
            }),
    {
        match self {
            PatchError::Io(e) => cat2("I/O: ", e.as_str()),
            PatchError::Extract(e) => cat2("extract: ", e.as_str()),
            PatchError::MissingResource(s) => cat2("missing bundled resource: ", s.as_str()),
            PatchError::CommandFailed(s) => cat2("command failed: ", s.as_str()),
        }
    }
}

/// The files that a resource directory has to hold.
pub open spec fn required_files() -> Seq<Seq<char>> {
    seq![
        "modules/subucom_virt.ko"@,
        "modules/virtio_snd.ko"@,
        "modules/udev_usb1.ko"@,
        "tools/ep122_shim.so"@,
        "tools/subucom_forwarder"@,
        "tools/subucom_live"@,
        "tools/cfgd"@,
        "patch/patch-rootfs.sh"@,
        "patch/dummy_drv.so"@,
        "patch/vanilla-modules/subucom_virt.ko"@,
        "patch/vanilla-modules/virtio_snd.ko"@,
        "patch/vanilla-modules/udev_usb1.ko"@,
    ]
}

/// The directory of the numbered patch steps.
pub const PATCH_STEPS_DIR: &'static str = "patch/patch-rootfs.d";

/// The files that a resource directory has to hold.
pub fn required_resources() -> (r: Vec<String>)
    ensures
        text::texts(r@) == required_files(),
{
    let mut list: Vec<String> = Vec::new();
    push_text(&mut list, "modules/subucom_virt.ko");
    push_text(&mut list, "modules/virtio_snd.ko");
    push_text(&mut list, "modules/udev_usb1.ko");
    push_text(&mut list, "tools/ep122_shim.so");
    push_text(&mut list, "tools/subucom_forwarder");
    push_text(&mut list, "tools/subucom_live");
    push_text(&mut list, "tools/cfgd");
    push_text(&mut list, "patch/patch-rootfs.sh");
    push_text(&mut list, "patch/dummy_drv.so");
    push_text(&mut list, "patch/vanilla-modules/subucom_virt.ko");
    push_text(&mut list, "patch/vanilla-modules/virtio_snd.ko");
    push_text(&mut list, "patch/vanilla-modules/udev_usb1.ko");
    assert(text::texts(list@) =~= required_files());
    list
}

/// `list` holds the text `t`.
pub open spec fn holds(list: Seq<String>, t: Seq<char>) -> bool {
    exists|i: int| 0 <= i < list.len() && (#[trigger] list[i])@ == t
}

fn list_holds(list: &Vec<String>, t: &str) -> (r: bool)
    ensures
        r == holds(list@, t@),
{
    let mut i: usize = 0;
    while i < list.len()
        invariant
            0 <= i <= list@.len(),
            forall|j: int| 0 <= j < i ==> (#[trigger] list@[j])@ != t@,
        decreases list@.len() - i,
    {
        if str_eq(list[i].as_str(), t) {
            return true;
        }
        i = i + 1;
    }
    false
}

/// The first required file that is not among `files`.
pub open spec fn first_missing(required: Seq<Seq<char>>, files: Seq<String>) -> Option<Seq<char>>
    decreases required.len(),
{
    if required.len() == 0 {
        None
    } else if !holds(files, required[0]) {
        Some(required[0])
    } else {
        first_missing(required.skip(1), files)
    }
}

/// How many steps the rootfs is patched in.
pub const PATCH_STEPS: usize = 18;

/// A script that holds all the patch steps itself: it has the signature of a generated
/// script, the marker of each step, and the marker of its end.
pub open spec fn is_merged(
    script: Seq<char>,
    signature: Seq<char>,
    steps: Seq<Seq<char>>,
    completion: Seq<char>,
) -> bool {
    &&& text::holds_text(script, signature)
    &&& steps.len() == PATCH_STEPS
    &&& forall|i: int| 0 <= i < steps.len() ==> text::holds_text(script, #[trigger] steps[i])
    &&& text::holds_text(script, completion)
}

/// Whether a script holds all the patch steps itself.
pub fn is_merged_dispatcher(
    script: &str,
    signature: &str,
    steps: &Vec<String>,
    completion: &str,
) -> (r: bool)
    ensures
        r == is_merged(script@, signature@, text::texts(steps@), completion@),
{
    if steps.len() != PATCH_STEPS || !contains_text(script, signature) || !contains_text(
        script,
        completion,
    ) {
        return false;
    }
    let mut i: usize = 0;
    while i < steps.len()
        invariant
            0 <= i <= steps@.len(),
            forall|j: int|
                0 <= j < i ==> text::holds_text(script@, #[trigger] text::texts(steps@)[j]),
        decreases steps@.len() - i,
    {
        if !contains_text(script, steps[i].as_str()) {
            assert(!text::holds_text(script@, text::texts(steps@)[i as int]));
            return false;
        }
        i = i + 1;
    }
    true
}

/// Checks a resource directory. `files` and `dirs` are the files and directories that
/// exist below it, as relative paths; `merged` says whether the patch script holds all the
/// steps itself. Either it does, or there is a directory of the patch steps, but not both.
/// The first required file that is missing is reported, and after that the directory of the
/// patch steps.
pub fn validate_patch_resources(
    resources_dir: &str,
    files: &Vec<String>,
    dirs: &Vec<String>,
    merged: bool,
) -> (r: Result<(), PatchError>)
    ensures
        r is Ok <==> first_missing(required_files(), files@) is None && merged != holds(
            dirs@,
            PATCH_STEPS_DIR@,
        ),
        r matches Err(e) ==> e matches PatchError::MissingResource(path) && path@ == text::joined(
            resources_dir@,
            match first_missing(required_files(), files@) {
                Some(name) => name,
                None => PATCH_STEPS_DIR@,
            },
        ),
{
    let required = required_resources();
    let mut i: usize = 0;
    assert(required_files().skip(0) =~= required_files());
    while i < required.len()
        invariant
            0 <= i <= required@.len(),
            text::texts(required@) == required_files(),
            first_missing(required_files().skip(i as int), files@) == first_missing(
                required_files(),
                files@,
            ),
        decreases required@.len() - i,
    {
        assert(required_files().skip(i as int)[0] == text::texts(required@)[i as int]);
        assert(required_files().skip(i as int).skip(1) =~= required_files().skip(i + 1));
        if !list_holds(files, required[i].as_str()) {
            return Err(
                PatchError::MissingResource(join_path(resources_dir, required[i].as_str())),
            );
        }
        i = i + 1;
    }
    if merged == list_holds(dirs, PATCH_STEPS_DIR) {
        return Err(PatchError::MissingResource(join_path(resources_dir, PATCH_STEPS_DIR)));
    }
    Ok(())
}

/// A script that was cut off before its end, or that lacks the marker of a step, is no merged
/// one.
pub proof fn truncated_dispatchers_are_not_merged(
    script: Seq<char>,
    signature: Seq<char>,
    steps: Seq<Seq<char>>,
    completion: Seq<char>,
    missing: Seq<char>,
)
    requires
        missing == signature || missing == completion || steps.contains(missing),
        !text::holds_text(script, missing),
    ensures
        !is_merged(script, signature, steps, completion),
{
}

/// A complete resource directory passes, and one that lacks a required file does not.
pub proof fn complete_resources_pass(files: Seq<String>)
    ensures
        first_missing(required_files(), files) is None <==> forall|i: int|
            0 <= i < required_files().len() ==> holds(files, #[trigger] required_files()[i]),
{
    lemma_first_missing(required_files(), files);
}

proof fn lemma_first_missing(required: Seq<Seq<char>>, files: Seq<String>)
    ensures
        first_missing(required, files) is None <==> forall|i: int|
            0 <= i < required.len() ==> holds(files, #[trigger] required[i]),
    decreases required.len(),
{
    if required.len() > 0 {
        let rest = required.skip(1);
        lemma_first_missing(rest, files);
        if holds(files, required[0]) {
            if first_missing(rest, files) is None {
                assert forall|i: int| 0 <= i < required.len() implies holds(
                    files,
                    #[trigger] required[i],
                ) by {
                    if i > 0 {
                        assert(rest[i - 1] == required[i]);
                    }
                }
            } else {
                let k = choose|k: int| 0 <= k < rest.len() && !holds(files, #[trigger] rest[k]);
                assert(required[k + 1] == rest[k]);
            }
        }
    }
}

/// Whether a file of the modules directory is a kernel module: its name has the
/// extension "ko".
pub open spec fn is_module_name(name: Seq<char>) -> bool {
    name.len() > 3 && name.skip(name.len() - 3) == ".ko"@
}

/// Whether a file of the modules directory is a kernel module.
pub fn is_module(name: &str) -> (r: bool)
    ensures
        r == is_module_name(name@),
{
    proof {
        reveal_strlit(".ko");
    }
    let n: usize = name.unicode_len();
    if n <= 3 {
        return false;
    }
    assert(name@.subrange(n - 3, n as int) =~= name@.skip(n - 3));
    str_eq(name.substring_char(n - 3, n), ".ko")
}

/// Where a guest tool goes, relative to the root file system: the shim to the home
/// directory, everything else among the programs.
pub open spec fn tool_place(name: Seq<char>) -> Seq<char> {
    text::joined(
        if name == "ep122_shim.so"@ {
            "home/root"@
        } else {
            "usr/bin"@
        },
        name,
    )
}

/// Where a guest tool goes, relative to the root file system.
pub fn tool_destination(name: &str) -> (r: String)
    ensures
        r@ == tool_place(name@),
{
    if str_eq(name, "ep122_shim.so") {
        join_path("home/root", name)
    } else {
        join_path("usr/bin", name)
    }
}

/// Whether unpacking succeeded. The archiver reports 1 for mere warnings; no exit code
/// at all is a failure.
pub fn unpack_succeeded(code: Option<i32>) -> (r: bool)
    ensures
        r == (code matches Some(c) && c < 2),
{
    match code {
        Some(c) => c < 2,
        None => false,
    }
}

/// Whether packing succeeded. The archiver reports 1 for mere warnings; no exit code
/// counts as a warning.
pub fn repack_succeeded(code: Option<i32>) -> (r: bool)
    ensures
        r == (code matches Some(c) ==> c < 2),
{
    match code {
        Some(c) => c < 2,
        None => true,
    }
}

/// Resources are complete only with the three modules, the shim and the other tools, the patch
/// script with its driver, and the three modules of the unpatched kernel.
pub proof fn every_bundled_file_is_required(files: Seq<String>)
    ensures
        first_missing(required_files(), files) is None <==> {
            &&& holds(files, "modules/subucom_virt.ko"@)
            &&& holds(files, "modules/virtio_snd.ko"@)
            &&& holds(files, "modules/udev_usb1.ko"@)
            &&& holds(files, "tools/ep122_shim.so"@)
            &&& holds(files, "tools/subucom_forwarder"@)
            &&& holds(files, "tools/subucom_live"@)
            &&& holds(files, "tools/cfgd"@)
            &&& holds(files, "patch/patch-rootfs.sh"@)
            &&& holds(files, "patch/dummy_drv.so"@)
            &&& holds(files, "patch/vanilla-modules/subucom_virt.ko"@)
            &&& holds(files, "patch/vanilla-modules/virtio_snd.ko"@)
            &&& holds(files, "patch/vanilla-modules/udev_usb1.ko"@)
        },
        PATCH_STEPS_DIR@ == "patch/patch-rootfs.d"@,
{
    let all = required_files();
    complete_resources_pass(files);
    if first_missing(all, files) is None {
        assert(forall|i: int| 0 <= i < 12 ==> holds(files, #[trigger] all[i]));
        assert(holds(files, all[0]) && holds(files, all[1]) && holds(files, all[2]));
        assert(holds(files, all[3]) && holds(files, all[4]) && holds(files, all[5]));
        assert(holds(files, all[6]) && holds(files, all[7]) && holds(files, all[8]));
        assert(holds(files, all[9]) && holds(files, all[10]) && holds(files, all[11]));
    }
}

/// Of the required files that are missing, the first is named.
pub proof fn the_first_missing_file_is_named(
    required: Seq<Seq<char>>,
    files: Seq<String>,
    i: int,
)
    requires
        0 <= i < required.len(),
        forall|j: int| 0 <= j < i ==> holds(files, #[trigger] required[j]),
        !holds(files, required[i]),
    ensures
        first_missing(required, files) == Some(required[i]),
    decreases i,
{
    if i > 0 {
        assert(holds(files, required[0]));
        assert forall|j: int| 0 <= j < i - 1 implies holds(
            files,
            #[trigger] required.skip(1)[j],
        ) by {
            assert(holds(files, required[j + 1]));
        }
        the_first_missing_file_is_named(required.skip(1), files, i - 1);
    }
}

/// A script is a merged one exactly where it holds its signature, its end, and the marker of
/// each of eighteen steps.
pub proof fn merged_dispatchers_hold_eighteen_steps(
    script: Seq<char>,
    signature: Seq<char>,
    steps: Seq<Seq<char>>,
    completion: Seq<char>,
)
    ensures
        is_merged(script, signature, steps, completion) <==> {
            &&& steps.len() == 18
            &&& text::holds_text(script, signature)
            &&& text::holds_text(script, completion)
            &&& forall|i: int|
                0 <= i < steps.len() ==> text::holds_text(script, #[trigger] steps[i])
        },
{
}

/// The modules are the files with a name in front of ".ko", and no others.
pub proof fn modules_end_in_ko(stem: Seq<char>, name: Seq<char>)
    ensures
        stem.len() > 0 ==> is_module_name(stem + seq!['.', 'k', 'o']),
        is_module_name(name) ==> name.len() > 3 && name == name.take(name.len() - 3) + seq![
            '.',
            'k',
            'o',
        ],
        !is_module_name(seq!['.', 'k', 'o']),
{
    reveal_strlit(".ko");
    let end = seq!['.', 'k', 'o'];
    assert(end =~= ".ko"@);
    let made = stem + end;
    assert(made.skip(made.len() - 3) =~= end);
    if is_module_name(name) {
        assert(name =~= name.take(name.len() - 3) + name.skip(name.len() - 3));
    }
}

/// The shim goes to the home directory; every other tool goes among the programs, under its
/// own name.
pub proof fn tools_have_their_places(name: Seq<char>)
    requires
        name.len() > 0,
        name[0] != '/',
    ensures
        name == "ep122_shim.so"@ ==> tool_place(name) == "home/root/"@ + name,
        name != "ep122_shim.so"@ ==> tool_place(name) == "usr/bin/"@ + name,
{
    reveal_strlit("home/root");
    reveal_strlit("usr/bin");
    reveal_strlit("home/root/");
    reveal_strlit("usr/bin/");
    assert("home/root"@.push('/') =~= "home/root/"@);
    assert("usr/bin"@.push('/') =~= "usr/bin/"@);
}

/// A list holds its own texts, and no others.
pub proof fn lists_hold_their_own_texts(list: Seq<String>, more: String, t: Seq<char>, i: int)
    ensures
        0 <= i < list.len() ==> holds(list, list[i]@),
        !holds(Seq::empty(), t),
        holds(list.push(more), t) <==> holds(list, t) || more@ == t,
{
    let all = list.push(more);
    if 0 <= i < list.len() {
        assert(list[i]@ == list[i]@);
    }
    if holds(list, t) {
        let k = choose|k: int| 0 <= k < list.len() && (#[trigger] list[k])@ == t;
        assert(all[k]@ == t);
    }
    if more@ == t {
        assert(all[list.len() as int]@ == t);
    }
    if holds(all, t) {
        let k = choose|k: int| 0 <= k < all.len() && (#[trigger] all[k])@ == t;
        if k < list.len() {
            assert(list[k]@ == t);
        }
    }
}

/// Of several archives of the same length the one that was found first is kept; a longer one
/// takes its place, and what is no archive never does.
pub proof fn the_first_of_the_longest_is_kept(best: Seq<u8>, candidate: Seq<u8>)
    ensures
        candidate.len() <= best.len() ==> better(Some(best), Some(candidate)) == Some(best),
        candidate.len() > best.len() && looks_like_cpio(candidate) ==> better(
            Some(best),
            Some(candidate),
        ) == Some(candidate),
        !looks_like_cpio(candidate) ==> better(Some(best), Some(candidate)) == Some(best) && better(
            None,
            Some(candidate),
        ) is None,
        better(Some(best), None) == Some(best),
{
    lemma_cpio_bytes(candidate);
}

} // verus!
