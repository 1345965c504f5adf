use vstd::prelude::*;
use serde_json::Value;
use crate::json::{json_nodes, json_parse, member, member_nodes, parse_json, text_of};

verus! {

/// The parts of a dotted key, as `str::split('.')` gives them: never empty,
/// with an empty part for each leading, trailing or doubled dot.
pub open spec fn split_dots(s: Seq<char>) -> Seq<Seq<char>>
    decreases s.len(),
{
    if s.len() == 0 {
        seq![Seq::empty()]
    } else {
        let t = split_dots(s.drop_first());
        if s[0] == '.' {
            seq![Seq::empty()] + t
        } else {
            t.update(0, seq![s[0]] + t[0])
        }
    }
}

/// The nodes reached by following `path` through object members, if every
/// member on the way exists.
pub open spec fn follow(
    nodes: Map<Seq<Seq<char>>, Option<Seq<char>>>,
    path: Seq<Seq<char>>,
) -> Option<Map<Seq<Seq<char>>, Option<Seq<char>>>>
    decreases path.len(),
{
    if path.len() == 0 {
        Some(nodes)
    } else if nodes.contains_key(seq![path[0]]) {
        follow(member_nodes(nodes, path[0]), path.drop_first())
    } else {
        None
    }
}

/// The localized string under a dotted key: the JSON string reached by
/// following the key's parts, or the key itself when there is none.
pub open spec fn localized(nodes: Map<Seq<Seq<char>>, Option<Seq<char>>>, key: Seq<char>) -> Seq<
    char,
> {
    match follow(nodes, split_dots(key)) {
        Some(m) => match m[Seq::empty()] {
            Some(t) => t,
            None => key,
        },
        None => key,
    }
}

proof fn lemma_split_nonempty(s: Seq<char>)
    ensures
        split_dots(s).len() >= 1,
    decreases s.len(),
{
    if s.len() > 0 {
        lemma_split_nonempty(s.drop_first());
    }
}

/// A part without dots joins the first part of what follows it.
proof fn lemma_split_dotless_prefix(seg: Seq<char>, r: Seq<char>)
    requires
        forall|k: int| 0 <= k < seg.len() ==> seg[k] != '.',
    ensures
        split_dots(seg + r) == split_dots(r).update(0, seg + split_dots(r)[0]),
    decreases seg.len(),
{
    lemma_split_nonempty(r);
    if seg.len() == 0 {
        assert(seg + r =~= r);
        assert(seg + split_dots(r)[0] =~= split_dots(r)[0]);
        assert(split_dots(r).update(0, split_dots(r)[0]) =~= split_dots(r));
    } else {
        let tail = seg.drop_first();
        lemma_split_dotless_prefix(tail, r);
        assert((seg + r).drop_first() =~= tail + r);
        assert((seg + r)[0] == seg[0]);
        assert(seq![seg[0]] + (tail + split_dots(r)[0]) =~= seg + split_dots(r)[0]);
        assert(split_dots(seg + r) =~= split_dots(r).update(0, seg + split_dots(r)[0]));
    }
}

/// The text under a dotted key of a locale, or the key itself when the key
/// does not lead to a JSON string.
pub fn get_l10n_string(v: &Value, key: &str) -> (r: String)
    ensures
        r@ == localized(json_nodes(*v), key@),
{
    let ghost target = follow(json_nodes(*v), split_dots(key@));
    let n = key.unicode_len();
    let mut cur: &Value = v;
    let mut start: usize = 0;
    let mut i: usize = 0;
    proof {
        assert(key@.subrange(0, n as int) =~= key@);
    }
    while i < n
        invariant
            n == key@.len(),
            target == follow(json_nodes(*v), split_dots(key@)),
            start <= i <= n,
            forall|k: int| start <= k < i ==> key@[k] != '.',
            target == follow(json_nodes(*cur), split_dots(key@.subrange(start as int, n as int))),
        decreases n - i,
    {
        let c = key.get_char(i);
        if c == '.' {
            let seg = key.substring_char(start, i);
            proof {
                let rest = key@.subrange(i + 1, n as int);
                let r = seq!['.'] + rest;
                lemma_split_dotless_prefix(seg@, r);
                lemma_split_nonempty(rest);
                assert(key@.subrange(start as int, n as int) =~= seg@ + r);
                assert(r.drop_first() =~= rest);
                assert(split_dots(r)[0] =~= Seq::<char>::empty());
                assert(seg@ + Seq::<char>::empty() =~= seg@);
                let whole = split_dots(key@.subrange(start as int, n as int));
                assert(whole[0] == seg@);
                assert(whole.drop_first() =~= split_dots(rest));
                assert(target == if json_nodes(*cur).contains_key(seq![seg@]) {
                    follow(member_nodes(json_nodes(*cur), seg@), split_dots(rest))
                } else {
                    None
                });
            }
            match member(cur, seg) {
                Some(m) => {
                    cur = m;
                    start = i + 1;
                },
                None => {
                    return String::from_str(key);
                },
            }
        }
        i = i + 1;
    }
    let seg = key.substring_char(start, n);
    proof {
        lemma_split_dotless_prefix(seg@, Seq::empty());
        assert(seg@ + Seq::<char>::empty() =~= seg@);
        assert(key@.subrange(start as int, n as int) =~= seg@);
        let whole = split_dots(seg@);
        assert(whole[0] == seg@);
        assert(whole.drop_first() =~= Seq::<Seq<char>>::empty());
        assert(target == if json_nodes(*cur).contains_key(seq![seg@]) {
            follow(member_nodes(json_nodes(*cur), seg@), Seq::empty())
        } else {
            None
        });
    }
    match member(cur, seg) {
        Some(m) => match text_of(m) {
            Some(t) => t,
            None => String::from_str(key),
        },
        None => String::from_str(key),
    }
}

/// The locale used when no locale file can be read.
pub const BUILTIN_LOCALE: &'static str = "{\"tray\":{\"work_timer\":\"Work Duration\",\"settings\":\"Settings\",\"rest_now\":\"Rest Now\",\"about\":\"About\",\"quit\":\"Quit\"}}";

/// The part of a language tag before its first dash (all of it when there
/// is none).
pub open spec fn base_language(lang: Seq<char>) -> Seq<char>
    decreases lang.len(),
{
    if lang.len() == 0 || lang[0] == '-' {
        Seq::empty()
    } else {
        seq![lang[0]] + base_language(lang.drop_first())
    }
}

/// The locales to try, in order: the tag itself, its base language, then
/// `zh-CN` and `en`; empty ones are left out.
pub open spec fn candidates(lang: Seq<char>) -> Seq<Seq<char>> {
    (if lang.len() > 0 {
        seq![lang]
    } else {
        Seq::empty()
    }) + (if base_language(lang).len() > 0 {
        seq![base_language(lang)]
    } else {
        Seq::empty()
    }) + seq!["zh-CN"@, "en"@]
}

/// The names under which a bundled resource may hold the locale `c`.
pub open spec fn resource_names(c: Seq<char>) -> Seq<Seq<char>> {
    seq!["ui/i18n/"@ + c + ".json"@, "i18n/"@ + c + ".json"@, c + ".json"@]
}

/// The names, relative to a search directory, under which a locale file for
/// `c` may be found.
pub open spec fn dev_names(c: Seq<char>) -> Seq<Seq<char>> {
    seq!["ui/i18n/"@ + c + ".json"@, "i18n/"@ + c + ".json"@, c + ".json"@, "../ui/i18n/"@ + c + ".json"@]
}

/// The texts of the strings held in `v`.
pub open spec fn texts(v: Seq<String>) -> Seq<Seq<char>> {
    v.map_values(|t: String| t@)
}

proof fn lemma_base_language(lang: Seq<char>, j: int)
    requires
        0 <= j <= lang.len(),
        forall|k: int| 0 <= k < j ==> lang[k] != '-',
        j == lang.len() || lang[j] == '-',
    ensures
        base_language(lang) == lang.take(j),
    decreases j,
{
    if j == 0 {
        assert(lang.take(0) =~= Seq::<char>::empty());
    } else {
        let tail = lang.drop_first();
        assert forall|k: int| 0 <= k < j - 1 implies tail[k] != '-' by {
            assert(tail[k] == lang[k + 1]);
        }
        lemma_base_language(tail, j - 1);
        assert(seq![lang[0]] + tail.take(j - 1) =~= lang.take(j));
    }
}

fn suffixed(prefix: &str, c: &str, suffix: &str) -> (r: String)
    ensures
        r@ == prefix@ + c@ + suffix@,
{
    String::from_str(prefix).concat(c).concat(suffix)
}

/// The locales to try for the language tag `lang`, in order.
pub fn locale_candidates(lang: &str) -> (r: Vec<String>)
    ensures
        texts(r@) == candidates(lang@),
{
    let n = lang.unicode_len();
    let mut j: usize = 0;
    let mut found = false;
    while j < n && !found
        invariant
            n == lang@.len(),
            j <= n,
            forall|k: int| 0 <= k < j ==> lang@[k] != '-',
            found ==> j < n && lang@[j as int] == '-',
        decreases n - j + (if found { 0int } else { 1int }),
    {
        if lang.get_char(j) == '-' {
            found = true;
        } else {
            j = j + 1;
        }
    }
    let base = lang.substring_char(0, j);
    proof {
        lemma_base_language(lang@, j as int);
    }
    let mut r: Vec<String> = Vec::new();
    if n > 0 {
        r.push(String::from_str(lang));
    }
    if j > 0 {
        r.push(String::from_str(base));
    }
    r.push(String::from_str("zh-CN"));
    r.push(String::from_str("en"));
    assert(texts(r@) =~= candidates(lang@));
    r
}

/// The bundled-resource names to try for the locale `c`, in order.
pub fn locale_resource_names(c: &str) -> (r: Vec<String>)
    ensures
        texts(r@) == resource_names(c@),
{
    let r = vec![suffixed("ui/i18n/", c, ".json"), suffixed("i18n/", c, ".json"), suffixed("", c, ".json")];
    proof {
        reveal_strlit("");
        assert(""@ + c@ =~= c@);
    }
    assert(texts(r@) =~= resource_names(c@));
    r
}

/// The names to try for the locale `c` in each search directory, in order.
pub fn locale_file_names(c: &str) -> (r: Vec<String>)
    ensures
        texts(r@) == dev_names(c@),
{
    let r = vec![
        suffixed("ui/i18n/", c, ".json"),
        suffixed("i18n/", c, ".json"),
        suffixed("", c, ".json"),
        suffixed("../ui/i18n/", c, ".json"),
    ];
    proof {
        reveal_strlit("");
        assert(""@ + c@ =~= c@);
    }
    assert(texts(r@) =~= dev_names(c@));
    r
}

/// The first of the texts that parses as JSON, as the locale; `None` when
/// none does.
pub fn first_locale(candidate_texts: &Vec<String>) -> (r: Option<Value>)
    ensures
        r is None <==> forall|i: int|
            0 <= i < candidate_texts@.len() ==> json_parse(#[trigger] candidate_texts@[i]@) is None,
        r matches Some(v) ==> exists|i: int|
            0 <= i < candidate_texts@.len() && json_parse(#[trigger] candidate_texts@[i]@) == Some(
                json_nodes(v),
            ) && forall|j: int| 0 <= j < i ==> json_parse(#[trigger] candidate_texts@[j]@) is None,
{
    let mut i: usize = 0;
    while i < candidate_texts.len()
        invariant
            i <= candidate_texts@.len(),
            forall|j: int| 0 <= j < i ==> json_parse(#[trigger] candidate_texts@[j]@) is None,
        decreases candidate_texts@.len() - i,
    {
        match parse_json(candidate_texts[i].as_str()) {
            Some(v) => {
                return Some(v);
            },
            None => {},
        }
        i = i + 1;
    }
    None
}

/// The labels of the tray menu entries.
#[derive(Clone, Debug)]
pub struct TrayLabels {
    pub settings: String,
    pub rest_now: String,
    pub about: String,
    pub quit: String,
}

/// The tray menu labels that the locale gives.
pub fn tray_labels(locale: &Value) -> (r: TrayLabels)
    ensures
        r.settings@ == localized(json_nodes(*locale), "tray.settings"@),
        r.rest_now@ == localized(json_nodes(*locale), "tray.rest_now"@),
        r.about@ == localized(json_nodes(*locale), "tray.about"@),
        r.quit@ == localized(json_nodes(*locale), "tray.quit"@),
{
    TrayLabels {
        settings: get_l10n_string(locale, "tray.settings"),
        rest_now: get_l10n_string(locale, "tray.rest_now"),
        about: get_l10n_string(locale, "tray.about"),
        quit: get_l10n_string(locale, "tray.quit"),
    }
}

} // verus!
