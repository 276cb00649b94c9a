//! Which form of an answer a client wants.
use crate::text::{
    before_first, eq_ignore_ascii_case, head_before, opt_text, pieces, same_ignoring_ascii_case,
    split_on, starts_with, str_eq, strip, stripped, texts,
};
use vstd::prelude::*;

verus! {

/// What a client takes.
#[derive(Debug)]
pub struct AcceptRange {
    /// Type, or a star for any.
    pub kind: String,
    /// Subtype, or a star for any.
    pub subkind: String,
    /// How much it wants it, as it stands in the header, if that says so.
    pub quality: Option<String>,
    /// How much the range says: 3 for a type and a subtype, 2 for a type, 1 for
    /// neither.
    pub specificity: u8,
}

/// What a client takes, as text.
pub struct RangeView {
    /// Type, or a star for any.
    pub kind: Seq<char>,
    /// Subtype, or a star for any.
    pub subkind: Seq<char>,
    /// How much it wants it, as it stands in the header.
    pub quality: Option<Seq<char>>,
    /// How much the range says.
    pub specificity: u8,
}

impl View for AcceptRange {
    type V = RangeView;

    open spec fn view(&self) -> RangeView {
        RangeView {
            kind: self.kind@,
            subkind: self.subkind@,
            quality: opt_text(self.quality),
            specificity: self.specificity,
        }
    }
}

/// The views of ranges.
pub open spec fn range_views(ranges: Seq<AcceptRange>) -> Seq<RangeView> {
    ranges.map_values(|range: AcceptRange| range@)
}

/// Type and subtype, with a slash between them.
pub open spec fn mime_parts(s: Seq<char>) -> Option<(Seq<char>, Seq<char>)> {
    let kind = before_first(s, '/');
    if kind.len() < s.len() {
        Some((kind, s.skip(kind.len() as int + 1)))
    } else {
        None
    }
}

/// Type and subtype, with a slash between them.
pub fn split_mime(s: &str) -> (r: Option<(String, String)>)
    ensures
        match r {
            Some((kind, subkind)) => mime_parts(s@) == Some((kind@, subkind@)),
            None => mime_parts(s@) is None,
        },
{
    let kind = head_before(s, '/');
    let k: usize = kind.as_str().unicode_len();
    let n: usize = s.unicode_len();
    proof {
        lemma_head_is_short(s@, '/');
    }
    if k < n {
        let subkind = s.substring_char(k + 1, n).to_owned();
        assert(subkind@ =~= s@.skip(k + 1));
        Some((kind, subkind))
    } else {
        None
    }
}

/// What stands before a character is no longer than the whole.
proof fn lemma_head_is_short(s: Seq<char>, c: char)
    ensures
        before_first(s, c).len() <= s.len(),
    decreases s.len(),
{
    if s.len() > 0 && s[0] != c {
        lemma_head_is_short(s.drop_first(), c);
    }
}

/// The quality that the parameters of a range give: the last one.
pub open spec fn range_quality(parameters: Seq<Seq<char>>) -> Option<Seq<char>>
    decreases parameters.len(),
{
    if parameters.len() == 0 {
        None
    } else if "q="@.is_prefix_of(stripped(parameters.last())) {
        Some(stripped(parameters.last()).skip(2))
    } else {
        range_quality(parameters.drop_last())
    }
}

/// How much a range says.
pub open spec fn range_specificity(kind: Seq<char>, subkind: Seq<char>) -> u8 {
    if kind == "*"@ && subkind == "*"@ {
        1
    } else if subkind == "*"@ {
        2
    } else {
        3
    }
}

/// The range that an entry of a header stands for, if it stands for one.
pub open spec fn entry_range(entry: Seq<char>) -> Option<RangeView> {
    let parts = pieces(stripped(entry), ';');
    match mime_parts(stripped(parts[0])) {
        Some((kind, subkind)) => Some(
            RangeView {
                kind,
                subkind,
                quality: range_quality(parts.drop_first()),
                specificity: range_specificity(kind, subkind),
            },
        ),
        None => None,
    }
}

/// The ranges that some entries of a header stand for.
pub open spec fn entry_ranges(entries: Seq<Seq<char>>) -> Seq<RangeView>
    decreases entries.len(),
{
    if entries.len() == 0 {
        Seq::empty()
    } else {
        match entry_range(entries.last()) {
            Some(range) => entry_ranges(entries.drop_last()).push(range),
            None => entry_ranges(entries.drop_last()),
        }
    }
}

/// The range that an entry of a header stands for, if it stands for one.
fn parse_entry(entry: &str) -> (r: Option<AcceptRange>)
    ensures
        match r {
            Some(range) => entry_range(entry@) == Some(range@),
            None => entry_range(entry@) is None,
        },
{
    let parts = split_on(strip(entry).as_str(), ';');
    let ghost all = pieces(stripped(entry@), ';');
    assert(all.len() > 0);
    assert(texts(parts@)[0] == parts@[0]@);
    let mime = strip(parts[0].as_str());
    let (kind, subkind) = match split_mime(mime.as_str()) {
        Some(pair) => pair,
        None => {
            return None;
        },
    };
    let mut quality: Option<String> = None;
    let mut i: usize = 1;
    assert(all.drop_first().take(0) =~= Seq::<Seq<char>>::empty());
    while i < parts.len()
        invariant
            1 <= i <= parts.len(),
            all == texts(parts@),
            opt_text(quality) == range_quality(all.drop_first().take(i - 1)),
        decreases parts.len() - i,
    {
        let parameter = strip(parts[i].as_str());
        proof {
            assert(all[i as int] == parts@[i as int]@);
            assert(all.drop_first().take(i as int).drop_last() =~= all.drop_first().take(i - 1));
            assert(all.drop_first().take(i as int).last() == all[i as int]);
        }
        if starts_with(parameter.as_str(), "q=") {
            proof {
                reveal_strlit("q=");
                assert("q="@.len() == 2);
            }
            let n: usize = parameter.as_str().unicode_len();
            let value = parameter.as_str().substring_char(2, n).to_owned();
            assert(value@ =~= parameter@.skip(2));
            quality = Some(value);
        }
        i = i + 1;
    }
    assert(all.drop_first().take(i - 1) =~= all.drop_first());
    let specificity: u8 = if str_eq(subkind.as_str(), "*") {
        if str_eq(kind.as_str(), "*") {
            1
        } else {
            2
        }
    } else {
        3
    };
    Some(AcceptRange { kind, subkind, quality, specificity })
}

/// The ranges in a header.
pub fn parse_accept(header: &str) -> (r: Vec<AcceptRange>)
    ensures
        range_views(r@) == entry_ranges(pieces(header@, ',')),
{
    let entries = split_on(header, ',');
    let ghost all = pieces(header@, ',');
    let mut ranges: Vec<AcceptRange> = Vec::new();
    let mut i: usize = 0;
    assert(range_views(ranges@) =~= entry_ranges(all.take(0)));
    while i < entries.len()
        invariant
            i <= entries.len(),
            all == texts(entries@),
            range_views(ranges@) == entry_ranges(all.take(i as int)),
        decreases entries.len() - i,
    {
        proof {
            assert(all.take(i + 1).drop_last() =~= all.take(i as int));
            assert(all.take(i + 1).last() == entries@[i as int]@);
        }
        let ghost before = ranges@;
        if let Some(range) = parse_entry(entries[i].as_str()) {
            ranges.push(range);
            assert(range_views(ranges@) =~= range_views(before).push(range@));
        }
        i = i + 1;
    }
    assert(all.take(i as int) =~= all);
    ranges
}

/// The ranges in a header; where there is none, a client takes anything.
pub fn accept_ranges(header: Option<&str>) -> (r: Vec<AcceptRange>)
    ensures
        range_views(r@) == entry_ranges(
            pieces(
                match header {
                    Some(header) => header@,
                    None => "*/*"@,
                },
                ',',
            ),
        ),
{
    match header {
        Some(header) => parse_accept(header),
        None => parse_accept("*/*"),
    }
}

/// Whether a range covers a type and subtype.
pub open spec fn covers(range: RangeView, kind: Seq<char>, subkind: Seq<char>) -> bool {
    &&& range.kind == "*"@ || same_ignoring_ascii_case(range.kind, kind)
    &&& range.subkind == "*"@ || same_ignoring_ascii_case(range.subkind, subkind)
}

/// Whether a range covers a type and subtype.
pub fn match_range(range: &AcceptRange, kind: &str, subkind: &str) -> (r: bool)
    ensures
        r == covers(range@, kind@, subkind@),
{
    let kind_ok = str_eq(range.kind.as_str(), "*") || eq_ignore_ascii_case(
        range.kind.as_str(),
        kind,
    );
    let subkind_ok = str_eq(range.subkind.as_str(), "*") || eq_ignore_ascii_case(
        range.subkind.as_str(),
        subkind,
    );
    kind_ok && subkind_ok
}

/// The greatest weight of the ranges that cover a type and subtype; zero where
/// none does.
pub open spec fn best_weight(
    ranges: Seq<RangeView>,
    weights: Seq<u32>,
    kind: Seq<char>,
    subkind: Seq<char>,
) -> u32
    decreases ranges.len(),
{
    if ranges.len() == 0 {
        0
    } else {
        let before = best_weight(ranges.drop_last(), weights.drop_last(), kind, subkind);
        if covers(ranges.last(), kind, subkind) && weights.last() > before {
            weights.last()
        } else {
            before
        }
    }
}

/// The weight of a form.
pub open spec fn form_weight(ranges: Seq<RangeView>, weights: Seq<u32>, form: Seq<char>) -> u32 {
    match mime_parts(form) {
        Some((kind, subkind)) => best_weight(ranges, weights, kind, subkind),
        None => 0,
    }
}

/// Whether the form at `best` is the one to send: the client takes it, it takes
/// none more gladly, and none that comes later as gladly.
pub open spec fn is_best(
    ranges: Seq<RangeView>,
    weights: Seq<u32>,
    supported: Seq<Seq<char>>,
    best: int,
) -> bool {
    &&& 0 <= best < supported.len()
    &&& form_weight(ranges, weights, supported[best]) > 0
    &&& forall|i: int|
        0 <= i < supported.len() ==> form_weight(ranges, weights, #[trigger] supported[i])
            <= form_weight(ranges, weights, supported[best])
    &&& forall|i: int|
        best < i < supported.len() ==> form_weight(ranges, weights, #[trigger] supported[i])
            < form_weight(ranges, weights, supported[best])
}

/// The weight of a type and subtype.
fn weigh(ranges: &Vec<AcceptRange>, weights: &Vec<u32>, kind: &str, subkind: &str) -> (r: u32)
    requires
        weights@.len() == ranges@.len(),
    ensures
        r == best_weight(range_views(ranges@), weights@, kind@, subkind@),
{
    let ghost views = range_views(ranges@);
    let mut best: u32 = 0;
    let mut i: usize = 0;
    while i < ranges.len()
        invariant
            i <= ranges.len(),
            weights@.len() == ranges@.len(),
            views == range_views(ranges@),
            best == best_weight(views.take(i as int), weights@.take(i as int), kind@, subkind@),
        decreases ranges.len() - i,
    {
        proof {
            assert(views.take(i + 1).drop_last() =~= views.take(i as int));
            assert(weights@.take(i + 1).drop_last() =~= weights@.take(i as int));
            assert(views.take(i + 1).last() == ranges@[i as int]@);
        }
        if match_range(&ranges[i], kind, subkind) && weights[i] > best {
            best = weights[i];
        }
        i = i + 1;
    }
    assert(views.take(i as int) =~= views);
    assert(weights@.take(i as int) =~= weights@);
    best
}

/// The forms, as text.
pub open spec fn form_texts(supported: Seq<&'static str>) -> Seq<Seq<char>> {
    supported.map_values(|form: &'static str| form@)
}

/// Which of the forms that there are to send to a client that takes the given
/// ranges, each with the given weight. Where there is a form without a slash, or
/// the client takes none, there is none to send.
pub fn negotiate(
    ranges: &Vec<AcceptRange>,
    weights: &Vec<u32>,
    supported: &Vec<&'static str>,
) -> (r: Option<usize>)
    requires
        weights@.len() == ranges@.len(),
    ensures
        match r {
            Some(best) => is_best(
                range_views(ranges@),
                weights@,
                form_texts(supported@),
                best as int,
            ) && forall|i: int|
                0 <= i < supported@.len() ==> mime_parts(
                    #[trigger] form_texts(supported@)[i],
                ) is Some,
            None => {
                ||| exists|i: int|
                    0 <= i < supported@.len() && mime_parts(
                        #[trigger] form_texts(supported@)[i],
                    ) is None
                ||| forall|i: int|
                    0 <= i < supported@.len() ==> form_weight(
                        range_views(ranges@),
                        weights@,
                        #[trigger] form_texts(supported@)[i],
                    ) == 0
            },
        },
{
    let ghost views = range_views(ranges@);
    let ghost forms = form_texts(supported@);
    let mut best: Option<(u32, usize)> = None;
    let mut i: usize = 0;
    while i < supported.len()
        invariant
            i <= supported.len(),
            weights@.len() == ranges@.len(),
            views == range_views(ranges@),
            forms == form_texts(supported@),
            forall|j: int| 0 <= j < i ==> mime_parts(#[trigger] forms[j]) is Some,
            match best {
                None => forall|j: int|
                    0 <= j < i ==> form_weight(views, weights@, #[trigger] forms[j]) == 0,
                Some((weight, at)) => {
                    &&& at < i
                    &&& weight > 0
                    &&& weight == form_weight(views, weights@, forms[at as int])
                    &&& forall|j: int|
                        0 <= j < i ==> form_weight(views, weights@, #[trigger] forms[j]) <= weight
                    &&& forall|j: int|
                        at < j < i ==> form_weight(views, weights@, #[trigger] forms[j]) < weight
                },
            },
        decreases supported.len() - i,
    {
        let form: &'static str = supported[i];
        assert(forms[i as int] == form@);
        let (kind, subkind) = match split_mime(form) {
            Some(pair) => pair,
            None => {
                return None;
            },
        };
        let weight = weigh(ranges, weights, kind.as_str(), subkind.as_str());
        if weight > 0 {
            let better = match best {
                None => true,
                Some((before, _)) => weight >= before,
            };
            if better {
                best = Some((weight, i));
            }
        }
        i = i + 1;
    }
    match best {
        Some((_, at)) => Some(at),
        None => None,
    }
}

/// There is at most one form to send.
pub proof fn lemma_best_form_is_unique(
    ranges: Seq<RangeView>,
    weights: Seq<u32>,
    supported: Seq<Seq<char>>,
    a: int,
    b: int,
)
    requires
        is_best(ranges, weights, supported, a),
        is_best(ranges, weights, supported, b),
    ensures
        a == b,
{
    if a < b {
        assert(form_weight(ranges, weights, supported[b]) < form_weight(
            ranges,
            weights,
            supported[a],
        ));
    } else if b < a {
        assert(form_weight(ranges, weights, supported[a]) < form_weight(
            ranges,
            weights,
            supported[b],
        ));
    }
}

/// Type and subtype are what stands before and behind the first slash, and there are
/// none only where there is no slash.
pub proof fn lemma_parts_around_the_first_slash(
    text: Seq<char>,
    kind: Seq<char>,
    subkind: Seq<char>,
)
    requires
        !kind.contains('/'),
    ensures
        mime_parts(kind + seq!['/'] + subkind) == Some((kind, subkind)),
        mime_parts(kind) is None,
        mime_parts(text) matches Some((k, s)) ==> text == k + seq!['/'] + s && !k.contains('/'),
    decreases text.len(),
{
    let whole = kind + seq!['/'] + subkind;
    crate::text::lemma_before_first(kind, subkind, '/');
    assert(whole.skip(kind.len() as int + 1) =~= subkind);
    lemma_slash_follows_head(text);
}

/// Where there is a slash, it follows what stands before it, which holds none.
proof fn lemma_slash_follows_head(s: Seq<char>)
    ensures
        before_first(s, '/').len() < s.len() ==> {
            let k = before_first(s, '/');
            &&& s =~= k + seq!['/'] + s.skip(k.len() as int + 1)
            &&& !k.contains('/')
        },
    decreases s.len(),
{
    if s.len() > 0 && s[0] != '/' {
        let rest = s.drop_first();
        lemma_slash_follows_head(rest);
        let k = before_first(s, '/');
        let inner = before_first(rest, '/');
        assert(k =~= seq![s[0]] + inner);
        if k.len() < s.len() {
            assert(rest.skip(inner.len() as int + 1) =~= s.skip(k.len() as int + 1));
            assert(s =~= seq![s[0]] + rest);
            assert(s =~= k + seq!['/'] + s.skip(k.len() as int + 1));
            assert(!k.contains('/')) by {
                if k.contains('/') {
                    let i = choose|i: int| 0 <= i < k.len() && k[i] == '/';
                    assert(inner[i - 1] == '/');
                }
            }
        }
    } else if s.len() > 0 {
        assert(s =~= before_first(s, '/') + seq!['/'] + s.skip(1));
    }
}

/// The quality of a range is what the last of its parameters gives that gives one.
pub proof fn lemma_last_quality_counts(parameters: Seq<Seq<char>>)
    ensures
        match range_quality(parameters) {
            Some(quality) => exists|i: int|
                {
                    &&& 0 <= i < parameters.len()
                    &&& stripped(#[trigger] parameters[i]) == "q="@ + quality
                    &&& forall|j: int|
                        i < j < parameters.len() ==> !"q="@.is_prefix_of(
                            stripped(#[trigger] parameters[j]),
                        )
                },
            None => forall|j: int|
                0 <= j < parameters.len() ==> !"q="@.is_prefix_of(
                    stripped(#[trigger] parameters[j]),
                ),
        },
    decreases parameters.len(),
{
    reveal_strlit("q=");
    if parameters.len() > 0 {
        let rest = parameters.drop_last();
        let last = parameters.len() - 1;
        let text = stripped(parameters.last());
        if "q="@.is_prefix_of(text) {
            assert(text.subrange(0, 2) =~= "q="@);
            assert("q="@ + text.skip(2) =~= text);
            assert(stripped(parameters[last]) == "q="@ + text.skip(2));
        } else {
            lemma_last_quality_counts(rest);
            assert forall|j: int| 0 <= j < last implies #[trigger] parameters[j] == rest[j] by {}
            match range_quality(rest) {
                Some(quality) => {
                    let i = choose|i: int|
                        {
                            &&& 0 <= i < rest.len()
                            &&& stripped(#[trigger] rest[i]) == "q="@ + quality
                            &&& forall|j: int|
                                i < j < rest.len() ==> !"q="@.is_prefix_of(
                                    stripped(#[trigger] rest[j]),
                                )
                        };
                    assert(stripped(parameters[i]) == "q="@ + quality);
                    assert forall|j: int| i < j < parameters.len() implies !"q="@.is_prefix_of(
                        stripped(#[trigger] parameters[j]),
                    ) by {
                        if j < last {
                            assert(!"q="@.is_prefix_of(stripped(rest[j])));
                        }
                    }
                },
                None => {
                    assert forall|j: int| 0 <= j < parameters.len() implies !"q="@.is_prefix_of(
                        stripped(#[trigger] parameters[j]),
                    ) by {
                        if j < last {
                            assert(!"q="@.is_prefix_of(stripped(rest[j])));
                        }
                    }
                },
            }
        }
    }
}

/// Each entry of a header gives its range, in the order of the entries; one without
/// a type and a subtype gives none.
pub proof fn lemma_each_entry_gives_its_range(first: Seq<Seq<char>>, second: Seq<Seq<char>>)
    ensures
        entry_ranges(first + second) == entry_ranges(first) + entry_ranges(second),
        first.len() == 1 && entry_range(first[0]) is Some ==> entry_ranges(first) == seq![
            entry_range(first[0])->0,
        ],
        first.len() == 1 && entry_range(first[0]) is None ==> entry_ranges(first).len() == 0,
    decreases second.len(),
{
    if first.len() == 1 {
        assert(entry_ranges(first.drop_last()).len() == 0);
        if let Some(range) = entry_range(first[0]) {
            assert(entry_ranges(first) =~= seq![range]);
        }
    }
    if second.len() == 0 {
        assert(first + second =~= first);
        assert(entry_ranges(first) + entry_ranges(second) =~= entry_ranges(first));
    } else {
        assert((first + second).drop_last() =~= first + second.drop_last());
        lemma_each_entry_gives_its_range(first, second.drop_last());
        assert(entry_ranges(first + second) =~= entry_ranges(first) + entry_ranges(second));
    }
}

/// A range with a type and a subtype says more than one with a type, and that more
/// than one for anything; the range of an entry is that of what comes first in it.
pub proof fn lemma_specific_ranges_say_more(kind: Seq<char>, subkind: Seq<char>, entry: Seq<char>)
    ensures
        kind != "*"@ && subkind != "*"@ ==> range_specificity("*"@, "*"@) < range_specificity(
            kind,
            "*"@,
        ) < range_specificity(kind, subkind),
        entry_range(entry) matches Some(range) ==> {
            let parts = pieces(stripped(entry), ';');
            &&& mime_parts(stripped(parts[0])) == Some((range.kind, range.subkind))
            &&& range.quality == range_quality(parts.skip(1))
            &&& range.specificity == range_specificity(range.kind, range.subkind)
        },
        mime_parts(stripped(pieces(stripped(entry), ';')[0])) is Some ==> entry_range(
            entry,
        ) is Some,
{
    let parts = pieces(stripped(entry), ';');
    assert(parts.len() > 0);
    assert(parts.skip(1) =~= parts.drop_first());
}

/// A star covers everything in its place; else a range covers what it names, however
/// it is written, and nothing else.
pub proof fn lemma_ranges_cover_what_they_name(
    range: RangeView,
    kind: Seq<char>,
    subkind: Seq<char>,
)
    ensures
        range.kind == "*"@ && range.subkind == "*"@ ==> covers(range, kind, subkind),
        range.subkind == "*"@ ==> covers(range, range.kind, subkind),
        covers(range, range.kind, range.subkind),
        covers(range, kind, subkind) && range.kind != "*"@ ==> same_ignoring_ascii_case(
            range.kind,
            kind,
        ),
        covers(range, kind, subkind) && range.subkind != "*"@ ==> same_ignoring_ascii_case(
            range.subkind,
            subkind,
        ),
{
}

/// The weight of a form is the greatest of those of the ranges that cover it, and
/// zero where none does.
pub proof fn lemma_weight_is_the_greatest(
    ranges: Seq<RangeView>,
    weights: Seq<u32>,
    kind: Seq<char>,
    subkind: Seq<char>,
)
    requires
        ranges.len() == weights.len(),
    ensures
        ({
            let best = best_weight(ranges, weights, kind, subkind);
            &&& forall|i: int|
                #![trigger ranges[i]]
                0 <= i < ranges.len() && covers(ranges[i], kind, subkind) ==> weights[i] <= best
            &&& best == 0 || exists|i: int|
                #![trigger ranges[i]]
                0 <= i < ranges.len() && covers(ranges[i], kind, subkind) && weights[i] == best
        }),
    decreases ranges.len(),
{
    if ranges.len() > 0 {
        let rest = ranges.drop_last();
        let others = weights.drop_last();
        let last = ranges.len() - 1;
        lemma_weight_is_the_greatest(rest, others, kind, subkind);
        let best = best_weight(ranges, weights, kind, subkind);
        let before = best_weight(rest, others, kind, subkind);
        assert forall|i: int|
            #![trigger ranges[i]]
            0 <= i < ranges.len() && covers(ranges[i], kind, subkind) implies weights[i] <= best by {
            if i < last {
                assert(rest[i] == ranges[i] && others[i] == weights[i]);
            }
        }
        if best != 0 {
            if covers(ranges.last(), kind, subkind) && weights.last() > before {
                assert(covers(ranges[last], kind, subkind) && weights[last] == best);
            } else {
                let i = choose|i: int|
                    #![trigger rest[i]]
                    0 <= i < rest.len() && covers(rest[i], kind, subkind) && others[i] == before;
                assert(ranges[i] == rest[i] && weights[i] == others[i]);
                assert(covers(ranges[i], kind, subkind) && weights[i] == best);
            }
        }
    }
}

/// The form that is sent is one that the client takes: one of its ranges covers it,
/// with a weight, and no range that covers another form weighs more.
pub proof fn lemma_sent_form_is_wanted(
    ranges: Seq<RangeView>,
    weights: Seq<u32>,
    supported: Seq<Seq<char>>,
    best: int,
)
    requires
        ranges.len() == weights.len(),
        is_best(ranges, weights, supported, best),
    ensures
        mime_parts(supported[best]) is Some,
        exists|i: int|
            #![trigger ranges[i]]
            {
                &&& 0 <= i < ranges.len()
                &&& covers(
                    ranges[i],
                    (mime_parts(supported[best])->0).0,
                    (mime_parts(supported[best])->0).1,
                )
                &&& weights[i] > 0
                &&& forall|form: int, j: int|
                    #![trigger supported[form], ranges[j]]
                    0 <= form < supported.len() && 0 <= j < ranges.len() && mime_parts(
                        supported[form],
                    ) is Some && covers(
                        ranges[j],
                        (mime_parts(supported[form])->0).0,
                        (mime_parts(supported[form])->0).1,
                    ) ==> weights[j] <= weights[i]
            },
{
    let (kind, subkind) = mime_parts(supported[best])->0;
    lemma_weight_is_the_greatest(ranges, weights, kind, subkind);
    let w = form_weight(ranges, weights, supported[best]);
    let i = choose|i: int|
        #![trigger ranges[i]]
        0 <= i < ranges.len() && covers(ranges[i], kind, subkind) && weights[i] == w;
    assert forall|form: int, j: int|
        #![trigger supported[form], ranges[j]]
        0 <= form < supported.len() && 0 <= j < ranges.len() && mime_parts(
            supported[form],
        ) is Some && covers(
            ranges[j],
            (mime_parts(supported[form])->0).0,
            (mime_parts(supported[form])->0).1,
        ) implies weights[j] <= weights[i] by {
        let (k, s) = mime_parts(supported[form])->0;
        lemma_weight_is_the_greatest(ranges, weights, k, s);
        assert(form_weight(ranges, weights, supported[form]) <= w);
    }
    assert(covers(ranges[i], kind, subkind));
}

} // verus!
