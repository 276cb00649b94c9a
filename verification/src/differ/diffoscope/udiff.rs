//! Differences of text in the unified format.
use crate::text::{decimal, decode_lossy, decode_text, replace_all, replaced, shown_text};
use vstd::prelude::*;
use vstd::utf8::{decode_utf8, encode_utf8, valid_utf8};

verus! {

/// What became of a line.
#[derive(Debug)]
pub enum HunkLine {
    /// It stayed.
    ContextLine(Vec<u8>),
    /// It came.
    InsertLine(Vec<u8>),
    /// It went.
    RemoveLine(Vec<u8>),
}

/// A part of a difference.
#[derive(Debug)]
pub struct Hunk {
    /// Where it starts in the old text.
    pub orig_pos: usize,
    /// How many lines of the old text it covers.
    pub orig_range: usize,
    /// Where it starts in the new text.
    pub mod_pos: usize,
    /// How many lines of the new text it covers.
    pub mod_range: usize,
    /// What else stands in its header.
    pub tail: Option<Vec<u8>>,
    /// The lines.
    pub lines: Vec<HunkLine>,
}

/// What became of a line, as bytes.
pub enum LineView {
    /// It stayed.
    Context(Seq<u8>),
    /// It came.
    Insert(Seq<u8>),
    /// It went.
    Remove(Seq<u8>),
}

/// A part of a difference, as bytes.
pub struct HunkView {
    /// Where it starts in the old text.
    pub orig_pos: usize,
    /// How many lines of the old text it covers.
    pub orig_range: usize,
    /// Where it starts in the new text.
    pub mod_pos: usize,
    /// How many lines of the new text it covers.
    pub mod_range: usize,
    /// What else stands in its header.
    pub tail: Option<Seq<u8>>,
    /// The lines.
    pub lines: Seq<LineView>,
}

impl View for HunkLine {
    type V = LineView;

    open spec fn view(&self) -> LineView {
        match self {
            HunkLine::ContextLine(bytes) => LineView::Context(bytes@),
            HunkLine::InsertLine(bytes) => LineView::Insert(bytes@),
            HunkLine::RemoveLine(bytes) => LineView::Remove(bytes@),
        }
    }
}

/// Lines as bytes.
pub open spec fn line_views(lines: Seq<HunkLine>) -> Seq<LineView> {
    lines.map_values(|line: HunkLine| line@)
}

impl View for Hunk {
    type V = HunkView;

    open spec fn view(&self) -> HunkView {
        HunkView {
            orig_pos: self.orig_pos,
            orig_range: self.orig_range,
            mod_pos: self.mod_pos,
            mod_range: self.mod_range,
            tail: match self.tail {
                Some(tail) => Some(tail@),
                None => None,
            },
            lines: line_views(self.lines@),
        }
    }
}

/// Hunks as bytes.
pub open spec fn hunk_views(hunks: Seq<Hunk>) -> Seq<HunkView> {
    hunks.map_values(|hunk: Hunk| hunk@)
}

/// What `patchkit::unified::iter_hunks` makes of the lines of a text, on a
/// machine whose words have `word_bits` bits: the hunks, or the rendered error.
pub uninterp spec fn parsed_hunks(text: Seq<char>, word_bits: u32) -> Result<
    Seq<HunkView>,
    Seq<char>,
>;

/// Hunks, or an error, as bytes and text.
pub open spec fn hunks_view(hunks: Result<Vec<Hunk>, String>) -> Result<Seq<HunkView>, Seq<char>> {
    match hunks {
        Ok(hunks) => Ok(hunk_views(hunks@)),
        Err(e) => Err(e@),
    }
}

/// Calls `patchkit::unified::iter_hunks` on `patchkit::unified::splitlines` and
/// hands out the fields of the hunks, or the first error. Of the result it is
/// only claimed that it depends on the text, and on the size of the numbers that
/// a word can hold, alone.
#[verifier::external_body]
fn parse_hunks(udiff: &str) -> (r: Result<Vec<Hunk>, String>)
    ensures
        hunks_view(r) == parsed_hunks(udiff@, usize::BITS),
{
    let mut input = patchkit::unified::splitlines(udiff.as_bytes());
    patchkit::unified::iter_hunks(&mut input).map(|h| h.map_err(|e| e.to_string()).map(|h| Hunk {
        orig_pos: h.orig_pos,
        orig_range: h.orig_range,
        mod_pos: h.mod_pos,
        mod_range: h.mod_range,
        tail: h.tail,
        lines: h.lines.into_iter().map(|line| match line {
            patchkit::unified::HunkLine::ContextLine(bytes) => HunkLine::ContextLine(bytes),
            patchkit::unified::HunkLine::InsertLine(bytes) => HunkLine::InsertLine(bytes),
            patchkit::unified::HunkLine::RemoveLine(bytes) => HunkLine::RemoveLine(bytes),
        }).collect(),
    })).collect()
}

/// Position and number of lines as they stand in a header: the number is left
/// out where it is one.
pub open spec fn range_text(pos: usize, range: usize) -> Seq<char> {
    if range == 1 {
        decimal(pos as nat)
    } else {
        decimal(pos as nat) + ","@ + decimal(range as nat)
    }
}

/// The header of a hunk.
pub open spec fn header_bytes(hunk: HunkView) -> Seq<u8> {
    encode_utf8(
        "@@ -"@ + range_text(hunk.orig_pos, hunk.orig_range) + " +"@ + range_text(
            hunk.mod_pos,
            hunk.mod_range,
        ) + " @@"@,
    ) + (match hunk.tail {
        Some(tail) => encode_utf8(" "@) + tail,
        None => Seq::empty(),
    }) + encode_utf8("\n"@)
}

/// A line as it stands in a hunk: after a mark, and followed by a remark where it
/// does not end the way that lines do.
pub open spec fn marked(mark: Seq<char>, bytes: Seq<u8>) -> Seq<u8> {
    encode_utf8(mark) + bytes + (if encode_utf8("\n"@).is_suffix_of(bytes) {
        Seq::empty()
    } else {
        encode_utf8("\n\\ No newline at end of file\n"@)
    })
}

/// A line as it stands in a hunk.
pub open spec fn line_bytes(line: LineView) -> Seq<u8> {
    match line {
        LineView::Context(bytes) => marked(" "@, bytes),
        LineView::Insert(bytes) => marked("+"@, bytes),
        LineView::Remove(bytes) => marked("-"@, bytes),
    }
}

/// Lines as they stand in a hunk.
pub open spec fn all_line_bytes(lines: Seq<LineView>) -> Seq<u8>
    decreases lines.len(),
{
    if lines.len() == 0 {
        Seq::empty()
    } else {
        all_line_bytes(lines.drop_last()) + line_bytes(lines.last())
    }
}

/// A hunk as it stands in a difference.
pub open spec fn hunk_bytes(hunk: HunkView) -> Seq<u8> {
    header_bytes(hunk) + all_line_bytes(hunk.lines)
}

/// Calls `patchkit::unified::Hunk::as_bytes` on a hunk with the same fields: the
/// header, then each line after the mark that says what became of it, with a
/// remark after a line that has no newline at its end.
#[verifier::external_body]
fn write_hunk(hunk: &Hunk) -> (r: Vec<u8>)
    ensures
        r@ == hunk_bytes(hunk@),
{
    patchkit::unified::Hunk {
        orig_pos: hunk.orig_pos,
        orig_range: hunk.orig_range,
        mod_pos: hunk.mod_pos,
        mod_range: hunk.mod_range,
        tail: hunk.tail.clone(),
        lines: hunk.lines.iter().map(|line| match line {
            HunkLine::ContextLine(bytes) => patchkit::unified::HunkLine::ContextLine(bytes.clone()),
            HunkLine::InsertLine(bytes) => patchkit::unified::HunkLine::InsertLine(bytes.clone()),
            HunkLine::RemoveLine(bytes) => patchkit::unified::HunkLine::RemoveLine(bytes.clone()),
        }).collect(),
    }.as_bytes()
}

/// Bytes with one version in place of another, where they are text.
pub open spec fn with_version(bytes: Seq<u8>, version: Seq<char>, shown: Seq<char>) -> Seq<u8> {
    if valid_utf8(bytes) {
        encode_utf8(replaced(decode_utf8(bytes), version, shown))
    } else {
        bytes
    }
}

/// A line in which the version is not to be seen: the old one in lines that went,
/// the new one in lines that came.
pub open spec fn unversioned(
    line: LineView,
    old_version: Seq<char>,
    new_version: Seq<char>,
    shown: Seq<char>,
) -> LineView {
    match line {
        LineView::Remove(bytes) => LineView::Remove(with_version(bytes, old_version, shown)),
        LineView::Insert(bytes) => LineView::Insert(with_version(bytes, new_version, shown)),
        LineView::Context(bytes) => LineView::Context(bytes),
    }
}

/// A hunk in which the versions are not to be seen.
pub open spec fn unversioned_hunk(
    hunk: HunkView,
    old_version: Seq<char>,
    new_version: Seq<char>,
    shown: Seq<char>,
) -> HunkView {
    HunkView {
        lines: hunk.lines.map_values(
            |line: LineView| unversioned(line, old_version, new_version, shown),
        ),
        ..hunk
    }
}

/// Hunks, with the versions not to be seen, as text.
pub open spec fn unversioned_text(
    hunks: Seq<HunkView>,
    old_version: Seq<char>,
    new_version: Seq<char>,
    shown: Seq<char>,
) -> Seq<char>
    decreases hunks.len(),
{
    if hunks.len() == 0 {
        Seq::empty()
    } else {
        unversioned_text(hunks.drop_last(), old_version, new_version, shown) + shown_text(
            hunk_bytes(unversioned_hunk(hunks.last(), old_version, new_version, shown)),
        )
    }
}

/// Bytes with one version in place of another, where they are text.
fn replace_version(bytes: &Vec<u8>, version: &str, shown: &str) -> (r: Vec<u8>)
    ensures
        r@ == with_version(bytes@, version@, shown@),
{
    match decode_text(bytes.as_slice()) {
        Some(text) => {
            let changed = replace_all(text.as_str(), version, shown);
            changed.as_str().as_bytes_vec()
        },
        None => bytes.clone(),
    }
}

/// A hunk in which the versions are not to be seen.
pub fn filter_hunk(hunk: &Hunk, old_version: &str, new_version: &str, shown: &str) -> (r: Hunk)
    ensures
        r@ == unversioned_hunk(hunk@, old_version@, new_version@, shown@),
{
    let mut lines: Vec<HunkLine> = Vec::new();
    let ghost wanted = unversioned_hunk(hunk@, old_version@, new_version@, shown@).lines;
    let mut i: usize = 0;
    while i < hunk.lines.len()
        invariant
            i <= hunk.lines.len(),
            wanted == unversioned_hunk(hunk@, old_version@, new_version@, shown@).lines,
            line_views(lines@) == wanted.take(i as int),
        decreases hunk.lines.len() - i,
    {
        let ghost before = lines@;
        let line = match &hunk.lines[i] {
            HunkLine::RemoveLine(bytes) => HunkLine::RemoveLine(
                replace_version(bytes, old_version, shown),
            ),
            HunkLine::InsertLine(bytes) => HunkLine::InsertLine(
                replace_version(bytes, new_version, shown),
            ),
            HunkLine::ContextLine(bytes) => HunkLine::ContextLine(bytes.clone()),
        };
        lines.push(line);
        proof {
            assert(line_views(lines@) =~= line_views(before).push(line@));
            assert(wanted[i as int] == line@);
            assert(wanted.take(i + 1) =~= wanted.take(i as int).push(line@));
        }
        i = i + 1;
    }
    assert(wanted.take(i as int) =~= wanted);
    let r = Hunk {
        orig_pos: hunk.orig_pos,
        orig_range: hunk.orig_range,
        mod_pos: hunk.mod_pos,
        mod_range: hunk.mod_range,
        tail: hunk.tail.clone(),
        lines,
    };
    assert(r@.tail == hunk@.tail);
    r
}

/// Hunks, with the versions not to be seen, as text.
pub fn filter_hunks(
    hunks: &Vec<Hunk>,
    old_version: &str,
    new_version: &str,
    shown: &str,
) -> (r: String)
    ensures
        r@ == unversioned_text(hunk_views(hunks@), old_version@, new_version@, shown@),
{
    let ghost views = hunk_views(hunks@);
    let mut out = String::new();
    let mut i: usize = 0;
    while i < hunks.len()
        invariant
            i <= hunks.len(),
            views == hunk_views(hunks@),
            out@ == unversioned_text(views.take(i as int), old_version@, new_version@, shown@),
        decreases hunks.len() - i,
    {
        proof {
            assert(views.take(i + 1).drop_last() =~= views.take(i as int));
            assert(views.take(i + 1).last() == hunks@[i as int]@);
        }
        let hunk = filter_hunk(&hunks[i], old_version, new_version, shown);
        out.append(decode_lossy(write_hunk(&hunk).as_slice()).as_str());
        i = i + 1;
    }
    assert(views.take(i as int) =~= views);
    out
}

/// What a difference comes to in which the versions are not to be seen, when it
/// was taken apart.
pub open spec fn filtered_udiff(
    hunks: Result<Seq<HunkView>, Seq<char>>,
    old_version: Seq<char>,
    new_version: Seq<char>,
    shown: Seq<char>,
) -> Result<Seq<char>, Seq<char>> {
    match hunks {
        Ok(hunks) => Ok(unversioned_text(hunks, old_version, new_version, shown)),
        Err(e) => Err(e),
    }
}

/// A text or an error.
pub open spec fn text_result(r: Result<String, String>) -> Result<Seq<char>, Seq<char>> {
    match r {
        Ok(text) => Ok(text@),
        Err(e) => Err(e@),
    }
}

/// A difference of text in which the old version in lines that went, and the new
/// one in lines that came, are replaced by `display_version`; an error where it
/// is no such difference.
pub fn filter_boring_udiff(
    udiff: &str,
    old_version: &str,
    new_version: &str,
    display_version: &str,
) -> (r: Result<String, String>)
    ensures
        text_result(r) == filtered_udiff(
            parsed_hunks(udiff@, usize::BITS),
            old_version@,
            new_version@,
            display_version@,
        ),
{
    match parse_hunks(udiff) {
        Ok(hunks) => Ok(filter_hunks(&hunks, old_version, new_version, display_version)),
        Err(e) => Err(e),
    }
}

/// Only the lines that came or went change, and these only in their text: each
/// hunk keeps its header and the number and kinds of its lines.
pub proof fn lemma_filter_keeps_shape(
    hunk: HunkView,
    old_version: Seq<char>,
    new_version: Seq<char>,
    shown: Seq<char>,
)
    ensures
        ({
            let after = unversioned_hunk(hunk, old_version, new_version, shown);
            &&& header_bytes(after) == header_bytes(hunk)
            &&& after.lines.len() == hunk.lines.len()
            &&& forall|i: int|
                0 <= i < hunk.lines.len() ==> {
                    &&& (#[trigger] after.lines[i]) is Context == hunk.lines[i] is Context
                    &&& after.lines[i] is Insert == hunk.lines[i] is Insert
                    &&& hunk.lines[i] is Context ==> after.lines[i] == hunk.lines[i]
                }
        }),
{
}

/// All hunks of a difference show, one after the other: what comes of two lists of
/// hunks is what comes of the first, then what comes of the second; and what comes
/// of a single hunk is the hunk itself, with the versions not to be seen.
pub proof fn lemma_hunks_stay_in_order(
    a: Seq<HunkView>,
    b: Seq<HunkView>,
    hunk: HunkView,
    old_version: Seq<char>,
    new_version: Seq<char>,
    shown: Seq<char>,
)
    ensures
        unversioned_text(a + b, old_version, new_version, shown) == unversioned_text(
            a,
            old_version,
            new_version,
            shown,
        ) + unversioned_text(b, old_version, new_version, shown),
        unversioned_text(seq![hunk], old_version, new_version, shown) == shown_text(
            hunk_bytes(unversioned_hunk(hunk, old_version, new_version, shown)),
        ),
        unversioned_text(Seq::empty(), old_version, new_version, shown) == Seq::<char>::empty(),
    decreases b.len(),
{
    assert(seq![hunk].drop_last() =~= Seq::<HunkView>::empty());
    assert(unversioned_text(Seq::<HunkView>::empty(), old_version, new_version, shown)
        =~= Seq::<char>::empty());
    assert(unversioned_text(seq![hunk], old_version, new_version, shown) =~= shown_text(
        hunk_bytes(unversioned_hunk(hunk, old_version, new_version, shown)),
    ));
    if b.len() == 0 {
        assert(a + b =~= a);
        assert(unversioned_text(a, old_version, new_version, shown) + unversioned_text(
            b,
            old_version,
            new_version,
            shown,
        ) =~= unversioned_text(a, old_version, new_version, shown));
    } else {
        lemma_hunks_stay_in_order(a, b.drop_last(), hunk, old_version, new_version, shown);
        assert((a + b).drop_last() =~= a + b.drop_last());
        assert((a + b).last() == b.last());
        assert(unversioned_text(a + b, old_version, new_version, shown) =~= unversioned_text(
            a,
            old_version,
            new_version,
            shown,
        ) + unversioned_text(b, old_version, new_version, shown));
    }
}

/// In a line that went, the old version gives way to the one to be seen, and in a
/// line that came, the new one; a line that is no text stays, and so does one that
/// the version does not occur in.
pub proof fn lemma_versions_give_way(
    hunk: HunkView,
    old_version: Seq<char>,
    new_version: Seq<char>,
    shown: Seq<char>,
    i: int,
)
    requires
        0 <= i < hunk.lines.len(),
    ensures
        ({
            let after = unversioned_hunk(hunk, old_version, new_version, shown).lines[i];
            match hunk.lines[i] {
                LineView::Context(bytes) => after == LineView::Context(bytes),
                LineView::Remove(bytes) => after == LineView::Remove(
                    if valid_utf8(bytes) {
                        encode_utf8(replaced(decode_utf8(bytes), old_version, shown))
                    } else {
                        bytes
                    },
                ),
                LineView::Insert(bytes) => after == LineView::Insert(
                    if valid_utf8(bytes) {
                        encode_utf8(replaced(decode_utf8(bytes), new_version, shown))
                    } else {
                        bytes
                    },
                ),
            }
        }),
{
}

/// A text that is no difference is an error, the one that taking it apart met; any
/// other comes to the text of its hunks.
pub proof fn lemma_only_differences_are_filtered(
    hunks: Result<Seq<HunkView>, Seq<char>>,
    old_version: Seq<char>,
    new_version: Seq<char>,
    shown: Seq<char>,
)
    ensures
        match (hunks, filtered_udiff(hunks, old_version, new_version, shown)) {
            (Ok(list), Ok(text)) => text == unversioned_text(list, old_version, new_version, shown),
            (Err(e), Err(other)) => other == e,
            _ => false,
        },
{
}

} // verus!
