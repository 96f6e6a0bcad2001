//! Parsing of the compact dictionary display fields: the `exchange`
//! field (`"p:ran/d:run"` — word forms keyed by a one-letter kind) and
//! the `pos` field (`"v:100/n:50"` — part-of-speech codes with
//! weights), plus the human-readable names of the exchange kinds.

use vstd::prelude::*;

use crate::strutil::{chars_eq, chars_of, chars_range, string_from_chars};

verus! {

/// Split at the first occurrence of `sep`: the characters before it
/// and the characters after it, or nothing when `sep` does not occur.
pub open spec fn spec_split_once(s: Seq<char>, sep: char) -> Option<(Seq<char>, Seq<char>)>
    decreases s.len(),
{
    if s.len() == 0 {
        None
    } else if s[0] == sep {
        Some((Seq::<char>::empty(), s.drop_first()))
    } else {
        match spec_split_once(s.drop_first(), sep) {
            Some(p) => Some((seq![s[0]] + p.0, p.1)),
            None => None,
        }
    }
}

/// Split on every occurrence of `sep`; like `str::split`, the result
/// always holds at least one (possibly empty) part.
pub open spec fn spec_split(s: Seq<char>, sep: char) -> Seq<Seq<char>>
    decreases s.len(),
{
    if s.len() == 0 {
        seq![Seq::<char>::empty()]
    } else if s[0] == sep {
        seq![Seq::<char>::empty()] + spec_split(s.drop_first(), sep)
    } else {
        let rest = spec_split(s.drop_first(), sep);
        seq![seq![s[0]] + rest[0]] + rest.drop_first()
    }
}

/// A split has at least one part.
pub proof fn lemma_split_len(s: Seq<char>, sep: char)
    ensures
        spec_split(s, sep).len() >= 1,
    decreases s.len(),
{
    if s.len() == 0 {
    } else if s[0] == sep {
    } else {
        lemma_split_len(s.drop_first(), sep);
    }
}

/// The parts of a split, with `prefix` glued onto the front of the
/// first one.
pub open spec fn spec_merge_first(prefix: Seq<char>, parts: Seq<Seq<char>>) -> Seq<Seq<char>>
    recommends
        parts.len() >= 1,
{
    seq![prefix + parts[0]] + parts.drop_first()
}

/// Split a character vector on `sep`.
fn split_chars(chars: &Vec<char>, sep: char) -> (segments: Vec<Vec<char>>)
    ensures
        segments@.map_values(|seg: Vec<char>| seg@) == spec_split(chars@, sep),
{
    let mut segments: Vec<Vec<char>> = Vec::new();
    let mut current: Vec<char> = Vec::new();
    let mut i: usize = 0;
    proof {
        lemma_split_len(chars@, sep);
        assert(chars@.skip(0) =~= chars@);
        assert(Seq::<char>::empty() + spec_split(chars@, sep)[0] =~= spec_split(chars@, sep)[0]);
        assert(seq![spec_split(chars@, sep)[0]] + spec_split(chars@, sep).drop_first()
            =~= spec_split(chars@, sep));
        assert(segments@.map_values(|seg: Vec<char>| seg@) =~= Seq::<Seq<char>>::empty());
    }
    while i < chars.len()
        invariant
            i <= chars@.len(),
            spec_split(chars@, sep) == segments@.map_values(|seg: Vec<char>| seg@)
                + spec_merge_first(current@, spec_split(chars@.skip(i as int), sep)),
        decreases chars@.len() - i,
    {
        let ghost prev_segments = segments@;
        let ghost prev_current = current@;
        let ghost suffix = chars@.skip(i as int);
        let ghost next_suffix = chars@.skip((i + 1) as int);
        proof {
            assert(suffix.len() > 0);
            assert(suffix[0] == chars@[i as int]);
            assert(suffix.drop_first() =~= next_suffix);
            lemma_split_len(next_suffix, sep);
        }
        let c = chars[i];
        if c == sep {
            segments.push(current);
            current = Vec::new();
            proof {
                let s1 = spec_split(next_suffix, sep);
                assert(spec_split(suffix, sep) == seq![Seq::<char>::empty()] + s1);
                assert(prev_current + (seq![Seq::<char>::empty()] + s1)[0] =~= prev_current);
                assert((seq![Seq::<char>::empty()] + s1).drop_first() =~= s1);
                assert(spec_merge_first(prev_current, spec_split(suffix, sep)) =~= seq![
                    prev_current,
                ] + s1);
                assert(Seq::<char>::empty() + s1[0] =~= s1[0]);
                assert(spec_merge_first(current@, s1) =~= s1);
                assert(segments@.map_values(|seg: Vec<char>| seg@) =~= prev_segments.map_values(
                    |seg: Vec<char>| seg@,
                ).push(prev_current));
                assert(prev_segments.map_values(|seg: Vec<char>| seg@).push(prev_current)
                    + spec_merge_first(current@, s1) =~= prev_segments.map_values(
                    |seg: Vec<char>| seg@,
                ) + spec_merge_first(prev_current, spec_split(suffix, sep)));
            }
        } else {
            current.push(c);
            proof {
                let s1 = spec_split(next_suffix, sep);
                assert(spec_split(suffix, sep) == seq![seq![suffix[0]] + s1[0]]
                    + s1.drop_first());
                assert((seq![seq![suffix[0]] + s1[0]] + s1.drop_first()).drop_first()
                    =~= s1.drop_first());
                assert(prev_current + (seq![suffix[0]] + s1[0]) =~= current@ + s1[0]);
                assert(spec_merge_first(prev_current, spec_split(suffix, sep))
                    =~= spec_merge_first(current@, s1));
            }
        }
        i = i + 1;
    }
    proof {
        assert(chars@.skip(i as int) =~= Seq::<char>::empty());
        let s0 = spec_split(Seq::<char>::empty(), sep);
        assert(s0 =~= seq![Seq::<char>::empty()]);
        assert(current@ + s0[0] =~= current@);
        assert(spec_merge_first(current@, s0) =~= seq![current@]);
    }
    let ghost prev_segments = segments@;
    segments.push(current);
    proof {
        assert(segments@.map_values(|seg: Vec<char>| seg@) =~= prev_segments.map_values(
            |seg: Vec<char>| seg@,
        ).push(segments@.last()@));
        assert(prev_segments.map_values(|seg: Vec<char>| seg@).push(segments@.last()@)
            =~= spec_split(chars@, sep));
    }
    segments
}

/// Find the first occurrence of `sep`, as the index that splits the
/// vector the way `spec_split_once` describes.
fn find_split(w: &Vec<char>, sep: char) -> (found: Option<usize>)
    ensures
        match found {
            Some(k) => 0 <= k < w@.len() && spec_split_once(w@, sep) == Some(
                (w@.take(k as int), w@.skip((k + 1) as int)),
            ),
            None => spec_split_once(w@, sep) is None,
        },
{
    let mut i: usize = 0;
    proof {
        assert(w@.skip(0) =~= w@);
    }
    while i < w.len()
        invariant
            i <= w@.len(),
            spec_split_once(w@, sep) == (match spec_split_once(w@.skip(i as int), sep) {
                Some(p) => Some((w@.take(i as int) + p.0, p.1)),
                None => None::<(Seq<char>, Seq<char>)>,
            }),
        decreases w@.len() - i,
    {
        let ghost suffix = w@.skip(i as int);
        let ghost next_suffix = w@.skip((i + 1) as int);
        proof {
            assert(suffix.len() > 0);
            assert(suffix[0] == w@[i as int]);
            assert(suffix.drop_first() =~= next_suffix);
        }
        if w[i] == sep {
            proof {
                assert(spec_split_once(suffix, sep) == Some(
                    (Seq::<char>::empty(), next_suffix),
                ));
                assert(w@.take(i as int) + Seq::<char>::empty() =~= w@.take(i as int));
            }
            return Some(i);
        }
        proof {
            match spec_split_once(next_suffix, sep) {
                Some(p) => {
                    assert(spec_split_once(suffix, sep) == Some((seq![suffix[0]] + p.0, p.1)));
                    assert(w@.take(i as int) + (seq![suffix[0]] + p.0) =~= w@.take((i + 1) as int)
                        + p.0);
                },
                None => {
                    assert(spec_split_once(suffix, sep) is None);
                },
            }
        }
        i = i + 1;
    }
    proof {
        assert(w@.skip(i as int) =~= Seq::<char>::empty());
    }
    None
}

/// The `key: value` pairs of a sequence of parts, keeping the parts
/// that hold a `:` and dropping the rest, in order.
pub open spec fn spec_exchange_pairs(parts: Seq<Seq<char>>) -> Seq<(Seq<char>, Seq<char>)>
    decreases parts.len(),
{
    if parts.len() == 0 {
        seq![]
    } else {
        let rest = spec_exchange_pairs(parts.drop_first());
        match spec_split_once(parts[0], ':') {
            Some(p) => seq![p] + rest,
            None => rest,
        }
    }
}

/// The word-form pairs of an `exchange` field: the field is split on
/// `/`, and each `kind:form` part becomes a pair.
pub open spec fn spec_parse_exchange(s: Seq<char>) -> Seq<(Seq<char>, Seq<char>)> {
    spec_exchange_pairs(spec_split(s, '/'))
}

/// Parse an `exchange` field such as `"p:ran/d:run"` into its
/// `(kind, word form)` pairs, in order of appearance; parts without a
/// `:` are dropped.
pub fn parse_exchange(exchange: &str) -> (pairs: Vec<(String, String)>)
    ensures
        pairs@.map_values(|p: (String, String)| (p.0@, p.1@)) == spec_parse_exchange(exchange@),
{
    let chars = chars_of(exchange);
    let segments = split_chars(&chars, '/');
    let ghost parts = segments@.map_values(|seg: Vec<char>| seg@);
    let mut pairs: Vec<(String, String)> = Vec::new();
    let mut i: usize = 0;
    proof {
        assert(parts.skip(0) =~= parts);
        assert(pairs@.map_values(|p: (String, String)| (p.0@, p.1@)) =~= Seq::<
            (Seq<char>, Seq<char>),
        >::empty());
    }
    while i < segments.len()
        invariant
            i <= segments@.len(),
            parts == segments@.map_values(|seg: Vec<char>| seg@),
            parts == spec_split(chars@, '/'),
            chars@ == exchange@,
            spec_exchange_pairs(parts) == pairs@.map_values(|p: (String, String)| (p.0@, p.1@))
                + spec_exchange_pairs(parts.skip(i as int)),
        decreases segments@.len() - i,
    {
        let ghost prev_pairs = pairs@;
        let ghost suffix = parts.skip(i as int);
        proof {
            assert(suffix.len() > 0);
            assert(suffix[0] == parts[i as int]);
            assert(suffix.drop_first() =~= parts.skip((i + 1) as int));
        }
        let seg = &segments[i];
        proof {
            assert(seg@ == parts[i as int]);
        }
        match find_split(seg, ':') {
            Some(k) => {
                let key = string_from_chars(seg, 0, k);
                let value = string_from_chars(seg, k + 1, seg.len());
                pairs.push((key, value));
                proof {
                    assert(seg@.take(k as int) =~= seg@.subrange(0, k as int));
                    assert(seg@.skip((k + 1) as int) =~= seg@.subrange(
                        (k + 1) as int,
                        seg@.len() as int,
                    ));
                    assert(spec_exchange_pairs(suffix) == seq![
                        (seg@.take(k as int), seg@.skip((k + 1) as int)),
                    ] + spec_exchange_pairs(parts.skip((i + 1) as int)));
                    assert(pairs@.map_values(|p: (String, String)| (p.0@, p.1@))
                        =~= prev_pairs.map_values(|p: (String, String)| (p.0@, p.1@)).push(
                        (seg@.take(k as int), seg@.skip((k + 1) as int)),
                    ));
                    assert(prev_pairs.map_values(|p: (String, String)| (p.0@, p.1@)) + seq![
                        (seg@.take(k as int), seg@.skip((k + 1) as int)),
                    ] + spec_exchange_pairs(parts.skip((i + 1) as int)) =~= pairs@.map_values(
                        |p: (String, String)| (p.0@, p.1@),
                    ) + spec_exchange_pairs(parts.skip((i + 1) as int)));
                }
            },
            None => {
                proof {
                    assert(spec_exchange_pairs(suffix) == spec_exchange_pairs(
                        parts.skip((i + 1) as int),
                    ));
                }
            },
        }
        i = i + 1;
    }
    proof {
        assert(parts.skip(i as int) =~= Seq::<Seq<char>>::empty());
    }
    pairs
}

/// The human-readable name of an exchange kind; an unknown kind names
/// itself.
pub open spec fn spec_exchange_type_name(key: Seq<char>) -> Seq<char> {
    if key == "p"@ {
        "过去式"@
    } else if key == "d"@ {
        "过去分词"@
    } else if key == "i"@ {
        "现在分词"@
    } else if key == "3"@ {
        "第三人称单数"@
    } else if key == "r"@ {
        "比较级"@
    } else if key == "t"@ {
        "最高级"@
    } else if key == "s"@ {
        "复数"@
    } else if key == "0"@ {
        "原型"@
    } else if key == "1"@ {
        "原型变换"@
    } else {
        key
    }
}

/// Describe an exchange kind key (`"p"`, `"d"`, ...) in words; an
/// unknown key is handed back unchanged.
pub fn exchange_type_name<'a>(key: &'a str) -> (name: &'a str)
    ensures
        name@ == spec_exchange_type_name(key@),
{
    let kc = chars_of(key);
    if chars_eq(&kc, &chars_of("p")) {
        "过去式"
    } else if chars_eq(&kc, &chars_of("d")) {
        "过去分词"
    } else if chars_eq(&kc, &chars_of("i")) {
        "现在分词"
    } else if chars_eq(&kc, &chars_of("3")) {
        "第三人称单数"
    } else if chars_eq(&kc, &chars_of("r")) {
        "比较级"
    } else if chars_eq(&kc, &chars_of("t")) {
        "最高级"
    } else if chars_eq(&kc, &chars_of("s")) {
        "复数"
    } else if chars_eq(&kc, &chars_of("0")) {
        "原型"
    } else if chars_eq(&kc, &chars_of("1")) {
        "原型变换"
    } else {
        key
    }
}

/// The display name of a part-of-speech code, or nothing for a code
/// outside the table.
pub open spec fn spec_pos_name(code: Seq<char>) -> Option<Seq<char>> {
    if code == "n"@ {
        Some("n. 名词"@)
    } else if code == "v"@ {
        Some("v. 动词"@)
    } else if code == "adj"@ || code == "a"@ || code == "j"@ {
        Some("adj. 形容词"@)
    } else if code == "adv"@ || code == "ad"@ || code == "r"@ {
        Some("adv. 副词"@)
    } else if code == "prep"@ {
        Some("prep. 介词"@)
    } else if code == "conj"@ || code == "c"@ {
        Some("conj. 连词"@)
    } else if code == "pron"@ {
        Some("pron. 代词"@)
    } else if code == "int"@ || code == "i"@ {
        Some("interj. 感叹词"@)
    } else if code == "art"@ {
        Some("art. 冠词"@)
    } else if code == "num"@ {
        Some("num. 数词"@)
    } else if code == "aux"@ {
        Some("aux. 助动词"@)
    } else {
        None
    }
}

/// Look a part-of-speech code up in the display table.
fn pos_name_of(code: &Vec<char>) -> (name: Option<&'static str>)
    ensures
        match name {
            Some(n) => spec_pos_name(code@) == Some(n@),
            None => spec_pos_name(code@) is None,
        },
{
    if chars_eq(code, &chars_of("n")) {
        Some("n. 名词")
    } else if chars_eq(code, &chars_of("v")) {
        Some("v. 动词")
    } else if chars_eq(code, &chars_of("adj")) || chars_eq(code, &chars_of("a")) || chars_eq(
        code,
        &chars_of("j"),
    ) {
        Some("adj. 形容词")
    } else if chars_eq(code, &chars_of("adv")) || chars_eq(code, &chars_of("ad")) || chars_eq(
        code,
        &chars_of("r"),
    ) {
        Some("adv. 副词")
    } else if chars_eq(code, &chars_of("prep")) {
        Some("prep. 介词")
    } else if chars_eq(code, &chars_of("conj")) || chars_eq(code, &chars_of("c")) {
        Some("conj. 连词")
    } else if chars_eq(code, &chars_of("pron")) {
        Some("pron. 代词")
    } else if chars_eq(code, &chars_of("int")) || chars_eq(code, &chars_of("i")) {
        Some("interj. 感叹词")
    } else if chars_eq(code, &chars_of("art")) {
        Some("art. 冠词")
    } else if chars_eq(code, &chars_of("num")) {
        Some("num. 数词")
    } else if chars_eq(code, &chars_of("aux")) {
        Some("aux. 助动词")
    } else {
        None
    }
}

/// The display names of a sequence of `code:weight` parts, in order,
/// keeping only the parts with a `:` and a code from the table.
pub open spec fn spec_pos_names(parts: Seq<Seq<char>>) -> Seq<Seq<char>>
    decreases parts.len(),
{
    if parts.len() == 0 {
        seq![]
    } else {
        let rest = spec_pos_names(parts.drop_first());
        match spec_split_once(parts[0], ':') {
            Some(p) => match spec_pos_name(p.0) {
                Some(name) => seq![name] + rest,
                None => rest,
            },
            None => rest,
        }
    }
}

/// The parts joined with `sep` between them.
pub open spec fn spec_join(parts: Seq<Seq<char>>, sep: Seq<char>) -> Seq<char>
    decreases parts.len(),
{
    if parts.len() == 0 {
        Seq::<char>::empty()
    } else if parts.len() == 1 {
        parts[0]
    } else {
        parts[0] + sep + spec_join(parts.drop_first(), sep)
    }
}

/// Joining one more part appends a separator and the part (or is just
/// the part, when it is the first).
pub proof fn lemma_join_push(parts: Seq<Seq<char>>, sep: Seq<char>, last_part: Seq<char>)
    ensures
        spec_join(parts.push(last_part), sep) == (if parts.len() == 0 {
            last_part
        } else {
            spec_join(parts, sep) + sep + last_part
        }),
    decreases parts.len(),
{
    if parts.len() == 0 {
        assert(parts.push(last_part)[0] == last_part);
    } else {
        lemma_join_push(parts.drop_first(), sep, last_part);
        assert(parts.push(last_part).drop_first() =~= parts.drop_first().push(last_part));
        assert(parts.push(last_part)[0] == parts[0]);
        if parts.len() == 1 {
        } else {
            assert(parts[0] + sep + (spec_join(parts.drop_first(), sep) + sep + last_part) =~= (
            parts[0] + sep + spec_join(parts.drop_first(), sep)) + sep + last_part);
        }
    }
}

/// What a `pos` field formats to: the field is split on `/`, each
/// `code:weight` part is looked up in the display table, and the
/// names found are joined with `" / "`.
pub open spec fn spec_parse_pos(s: Seq<char>) -> Seq<char> {
    spec_join(spec_pos_names(spec_split(s, '/')), " / "@)
}

/// Format a `pos` field such as `"v:100/n:50"` as a readable list of
/// part-of-speech names.
pub fn parse_pos(pos: &str) -> (formatted: String)
    ensures
        formatted@ == spec_parse_pos(pos@),
{
    let chars = chars_of(pos);
    let segments = split_chars(&chars, '/');
    let ghost parts = segments@.map_values(|seg: Vec<char>| seg@);
    let mut names: Vec<&'static str> = Vec::new();
    let mut i: usize = 0;
    proof {
        assert(parts.skip(0) =~= parts);
        assert(names@.map_values(|n: &str| n@) =~= Seq::<Seq<char>>::empty());
    }
    while i < segments.len()
        invariant
            i <= segments@.len(),
            parts == segments@.map_values(|seg: Vec<char>| seg@),
            parts == spec_split(chars@, '/'),
            chars@ == pos@,
            spec_pos_names(parts) == names@.map_values(|n: &str| n@) + spec_pos_names(
                parts.skip(i as int),
            ),
        decreases segments@.len() - i,
    {
        let ghost prev_names = names@;
        let ghost suffix = parts.skip(i as int);
        proof {
            assert(suffix.len() > 0);
            assert(suffix[0] == parts[i as int]);
            assert(suffix.drop_first() =~= parts.skip((i + 1) as int));
        }
        let seg = &segments[i];
        proof {
            assert(seg@ == parts[i as int]);
        }
        match find_split(seg, ':') {
            Some(k) => {
                let code = chars_range(seg, 0, k);
                proof {
                    assert(code@ =~= seg@.take(k as int));
                }
                match pos_name_of(&code) {
                    Some(n) => {
                        names.push(n);
                        proof {
                            assert(spec_pos_names(suffix) == seq![n@] + spec_pos_names(
                                parts.skip((i + 1) as int),
                            ));
                            assert(names@.map_values(|x: &str| x@) =~= prev_names.map_values(
                                |x: &str| x@,
                            ).push(n@));
                            assert(prev_names.map_values(|x: &str| x@) + seq![n@]
                                + spec_pos_names(parts.skip((i + 1) as int)) =~= names@.map_values(
                                |x: &str| x@,
                            ) + spec_pos_names(parts.skip((i + 1) as int)));
                        }
                    },
                    None => {
                        proof {
                            assert(spec_pos_names(suffix) == spec_pos_names(
                                parts.skip((i + 1) as int),
                            ));
                        }
                    },
                }
            },
            None => {
                proof {
                    assert(spec_pos_names(suffix) == spec_pos_names(parts.skip((i + 1) as int)));
                }
            },
        }
        i = i + 1;
    }
    proof {
        assert(parts.skip(i as int) =~= Seq::<Seq<char>>::empty());
        assert(names@.map_values(|n: &str| n@) == spec_pos_names(parts));
    }

    let ghost name_views = names@.map_values(|n: &str| n@);
    let mut formatted = String::new();
    let mut j: usize = 0;
    proof {
        assert(name_views.take(0) =~= Seq::<Seq<char>>::empty());
    }
    while j < names.len()
        invariant
            j <= names@.len(),
            name_views == names@.map_values(|n: &str| n@),
            formatted@ == spec_join(name_views.take(j as int), " / "@),
        decreases names@.len() - j,
    {
        let ghost prev = formatted@;
        if j > 0 {
            formatted.append(" / ");
        }
        formatted.append(names[j]);
        proof {
            lemma_join_push(name_views.take(j as int), " / "@, name_views[j as int]);
            assert(name_views.take(j as int).push(name_views[j as int]) =~= name_views.take(
                (j + 1) as int,
            ));
            if j == 0 {
                assert(prev + " / "@ + name_views[j as int] =~= prev + (" / "@
                    + name_views[j as int]));
                assert(formatted@ =~= name_views[j as int]);
            }
        }
        j = j + 1;
    }
    proof {
        assert(name_views.take(j as int) =~= name_views);
    }
    formatted
}

} // verus!
