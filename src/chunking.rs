use vstd::prelude::*;
use vstd::string::*;
use crate::model::ChunkRecord;

verus! {

/// What code-splitter makes of `code` when it parses it as Go and keeps each
/// chunk within `max_size` characters: the byte ranges `(start, end)` of the
/// chunks, or `None` where it cannot split the code.
pub uninterp spec fn go_split(code: Seq<u8>, max_size: nat) -> Option<Seq<(usize, usize)>>;

/// The text that the bytes `b` encode, or `None` where they are not UTF-8.
pub uninterp spec fn utf8_text(b: Seq<u8>) -> Option<Seq<char>>;

/// Relies on code_splitter::Splitter (new, with_max_size, split) with
/// tree-sitter's Go grammar and CharCounter: the chunk ranges of `code`, or
/// `None` where the grammar cannot be loaded or the code cannot be split;
/// the outcome depends on the code and `max_size` alone. Empty code splits
/// into no chunks.
#[verifier::external_body]
fn split_go(code: &[u8], max_size: usize) -> (r: Option<Vec<(usize, usize)>>)
    ensures
        r is Some <==> go_split(code@, max_size as nat) is Some,
        r matches Some(v) ==> v@ == go_split(code@, max_size as nat)->0,
        r matches Some(v) ==> (code@.len() == 0 ==> v@.len() == 0),
{
    let splitter = code_splitter::Splitter::new(tree_sitter_go::language(), code_splitter::CharCounter)
        .ok()?
        .with_max_size(max_size);
    let chunks = splitter.split(code).ok()?;
    Some(chunks.iter().map(|c| (c.range.start_byte, c.range.end_byte)).collect())
}

/// Relies on std::str::from_utf8: the text that the bytes encode, if they
/// are valid UTF-8.
#[verifier::external_body]
fn decode_utf8(b: &[u8]) -> (r: Option<String>)
    ensures
        r matches Some(s) ==> utf8_text(b@) == Some(s@),
        r is None ==> utf8_text(b@) is None,
{
    std::str::from_utf8(b).ok().map(|s| s.to_string())
}

/// A path names a Go source file: its file name is something followed by
/// the extension `go`.
pub open spec fn is_go_path(p: Seq<char>) -> bool {
    &&& p.len() > 3
    &&& p.subrange(p.len() - 3, p.len() as int) == ".go"@
    &&& p[p.len() - 4] != '/'
}

pub fn has_go_extension(path: &str) -> (r: bool)
    ensures
        r == is_go_path(path@),
{
    let n = path.unicode_len();
    if n <= 3 {
        return false;
    }
    proof { reveal_strlit(".go"); }
    let a = path.get_char(n - 3);
    let b = path.get_char(n - 2);
    let c = path.get_char(n - 1);
    let d = path.get_char(n - 4);
    let r = a == '.' && b == 'g' && c == 'o' && d != '/';
    assert(r ==> path@.subrange(n - 3, n as int) =~= ".go"@);
    assert(path@.subrange(n - 3, n as int) == ".go"@ ==> a == '.' && b == 'g' && c == 'o') by {
        if path@.subrange(n - 3, n as int) == ".go"@ {
            assert(path@.subrange(n - 3, n as int)[0] == a);
            assert(path@.subrange(n - 3, n as int)[1] == b);
            assert(path@.subrange(n - 3, n as int)[2] == c);
        }
    }
    r
}

/// The chunks of one file: for each range that lies within the code and
/// holds valid UTF-8, in order, the file's path and the range's text.
pub open spec fn file_chunks(path: Seq<char>, code: Seq<u8>, ranges: Seq<(usize, usize)>) -> Seq<(Seq<char>, Seq<char>)>
    decreases ranges.len(),
{
    if ranges.len() == 0 {
        Seq::empty()
    } else {
        let rest = file_chunks(path, code, ranges.drop_last());
        let (s, e) = ranges.last();
        if s <= e && e <= code.len() && utf8_text(code.subrange(s as int, e as int)) is Some {
            rest.push((path, utf8_text(code.subrange(s as int, e as int))->0))
        } else {
            rest
        }
    }
}

pub open spec fn record_views(rs: Seq<ChunkRecord>) -> Seq<(Seq<char>, Seq<char>)> {
    rs.map_values(|r: ChunkRecord| (r.source_id@, r.text@))
}

fn copy_range(code: &Vec<u8>, start: usize, end: usize) -> (r: Vec<u8>)
    requires
        start <= end <= code@.len(),
    ensures
        r@ == code@.subrange(start as int, end as int),
{
    let mut out: Vec<u8> = Vec::new();
    let mut i: usize = start;
    while i < end
        invariant
            start <= i <= end <= code@.len(),
            out@ == code@.subrange(start as int, i as int),
        decreases end - i,
    {
        out.push(code[i]);
        i = i + 1;
        assert(out@ =~= code@.subrange(start as int, i as int));
    }
    out
}

/// Cuts one Go file into chunk records of at most `max_size` characters;
/// `None` exactly where code-splitter cannot split it. A range that falls outside
/// the code or does not hold valid UTF-8 is passed over.
pub fn chunk_file(path: &str, code: &Vec<u8>, max_size: usize) -> (r: Option<Vec<ChunkRecord>>)
    ensures
        r is Some <==> go_split(code@, max_size as nat) is Some,
        r matches Some(v) ==> record_views(v@) == file_chunks(path@, code@, go_split(code@, max_size as nat)->0),
        r matches Some(v) ==> (code@.len() == 0 ==> v@.len() == 0),
{
    let ranges = match split_go(code.as_slice(), max_size) {
        Some(v) => v,
        None => return None,
    };
    let mut out: Vec<ChunkRecord> = Vec::new();
    let mut i: usize = 0;
    while i < ranges.len()
        invariant
            i <= ranges@.len(),
            ranges@ == go_split(code@, max_size as nat)->0,
            go_split(code@, max_size as nat) is Some,
            code@.len() == 0 ==> ranges@.len() == 0,
            record_views(out@) == file_chunks(path@, code@, ranges@.subrange(0, i as int)),
        decreases ranges@.len() - i,
    {
        let (s, e) = ranges[i];
        assert(ranges@.subrange(0, i + 1).drop_last() =~= ranges@.subrange(0, i as int));
        if s <= e && e <= code.len() {
            let bytes = copy_range(code, s, e);
            match decode_utf8(bytes.as_slice()) {
                Some(text) => {
                    let rec = ChunkRecord::new(String::from_str(path), text);
                    let ghost before = out@;
                    out.push(rec);
                    assert(record_views(out@) =~= record_views(before).push((path@, text@)));
                },
                None => {},
            }
        }
        i = i + 1;
    }
    assert(ranges@.subrange(0, ranges@.len() as int) =~= ranges@);
    Some(out)
}

} // verus!
