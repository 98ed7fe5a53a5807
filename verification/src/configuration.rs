//! The configuration resolver: a layered key/value document with
//! per-application overrides, inheritance and an explicit disablement
//! sentinel.
//!
//! The document is a flat mapping from dotted setting keys to action
//! strings. Reserved top-level prefixes (`swipe`, `rotation`, `pinch`,
//! `gesture`) hold the global settings; any other top-level prefix is an
//! application override namespace mirroring the same sub-keys, so that
//! `firefox.swipe.up.3` overrides `swipe.up.3` inside that application.

use vstd::prelude::*;
use vstd::string::StringExecFns;

use crate::gestures::{spec_config_key, GestureType};

verus! {

/// A flat key/value configuration document. Writing a key again replaces
/// its value; the document is replaced wholesale on reload, never mutated
/// key by key in place.
pub struct ConfigDocument {
    entries: Vec<(String, String)>,
}

/// The value the entry list gives a key: of all entries carrying the key,
/// the one written last wins.
pub open spec fn spec_doc_lookup(entries: Seq<(String, String)>, key: Seq<char>) -> Option<
    Seq<char>,
>
    decreases entries.len(),
{
    if entries.len() == 0 {
        None
    } else if entries.last().0@ == key {
        Some(entries.last().1@)
    } else {
        spec_doc_lookup(entries.drop_last(), key)
    }
}

impl View for ConfigDocument {
    type V = Map<Seq<char>, Seq<char>>;

    closed spec fn view(&self) -> Map<Seq<char>, Seq<char>> {
        Map::new(
            |k: Seq<char>| spec_doc_lookup(self.entries@, k) is Some,
            |k: Seq<char>| spec_doc_lookup(self.entries@, k).unwrap(),
        )
    }
}

impl ConfigDocument {
    /// An empty document.
    pub fn new() -> (d: ConfigDocument)
        ensures
            d@ == Map::<Seq<char>, Seq<char>>::empty(),
    {
        let d = ConfigDocument { entries: Vec::new() };
        proof {
            assert(d@ =~= Map::<Seq<char>, Seq<char>>::empty());
        }
        d
    }

    /// Writes one setting, replacing any earlier value of the key.
    pub fn set(&mut self, key: &str, value: &str)
        ensures
            final(self)@ == old(self)@.insert(key@, value@),
    {
        self.entries.push((key.to_owned(), value.to_owned()));
        proof {
            let olde = old(self).entries@;
            let newe = self.entries@;
            assert(newe.drop_last() =~= olde);
            assert forall|q: Seq<char>|
                spec_doc_lookup(newe, q) == (if q == key@ {
                    Some(value@)
                } else {
                    spec_doc_lookup(olde, q)
                }) by {
                if q != key@ {
                    assert(spec_doc_lookup(newe, q) == spec_doc_lookup(newe.drop_last(), q));
                }
            }
            assert(self@ =~= old(self)@.insert(key@, value@));
        }
    }

    /// Looks one key up, verbatim.
    pub fn get(&self, key: &str) -> (r: Option<String>)
        ensures
            match r {
                Some(v) => self@.contains_key(key@) && v@ == self@[key@],
                None => !self@.contains_key(key@),
            },
    {
        let k: String = key.to_owned();
        let mut i: usize = self.entries.len();
        proof {
            assert(self.entries@.take(i as int) =~= self.entries@);
        }
        while i > 0
            invariant
                0 <= i <= self.entries@.len(),
                k@ == key@,
                spec_doc_lookup(self.entries@, key@) == spec_doc_lookup(
                    self.entries@.take(i as int),
                    key@,
                ),
            decreases i,
        {
            i = i - 1;
            proof {
                assert(self.entries@.take(i as int + 1).last() == self.entries@[i as int]);
                assert(self.entries@.take(i as int + 1).drop_last() =~= self.entries@.take(
                    i as int,
                ));
            }
            if self.entries[i].0 == k {
                return Some(self.entries[i].1.clone());
            }
        }
        proof {
            assert(self.entries@.take(0) =~= Seq::<(String, String)>::empty());
        }
        None
    }
}

/// The key a setting is looked up under in an application's namespace:
/// the application name, a dot, and the setting key; with no application
/// the setting key itself.
pub open spec fn spec_key_for_app(setting: Seq<char>, app: Option<Seq<char>>) -> Seq<char> {
    match app {
        Some(a) => a + "."@ + setting,
        None => setting,
    }
}

/// The view of an optional application name.
pub open spec fn spec_app_view(app: Option<&str>) -> Option<Seq<char>> {
    match app {
        Some(a) => Some(a@),
        None => None,
    }
}

/// What a verbatim lookup of one key gives.
pub open spec fn spec_lookup(doc: Map<Seq<char>, Seq<char>>, key: Seq<char>) -> Option<Seq<char>> {
    if doc.contains_key(key) {
        Some(doc[key])
    } else {
        None
    }
}

/// The non-inherited lookup: the setting in the application's namespace
/// when one is given, else the global setting — with no fallback.
pub open spec fn spec_lookup_no_inheritance(
    doc: Map<Seq<char>, Seq<char>>,
    setting: Seq<char>,
    app: Option<Seq<char>>,
) -> Option<Seq<char>> {
    spec_lookup(doc, spec_key_for_app(setting, app))
}

/// The layered lookup behind resolution: the application's own value
/// when its key exists, else the global value, unfiltered.
pub open spec fn spec_layered_lookup(
    doc: Map<Seq<char>, Seq<char>>,
    setting: Seq<char>,
    app: Option<Seq<char>>,
) -> Option<Seq<char>> {
    match spec_lookup_no_inheritance(doc, setting, app) {
        Some(v) => Some(v),
        None => spec_lookup(doc, setting),
    }
}

/// The resolved action for a setting: the application's own value when
/// its key exists, else the global value; an empty resolved value (the
/// disablement sentinel) is filtered to nothing.
pub open spec fn spec_resolve(
    doc: Map<Seq<char>, Seq<char>>,
    setting: Seq<char>,
    app: Option<Seq<char>>,
) -> Option<Seq<char>> {
    match spec_layered_lookup(doc, setting, app) {
        Some(v) => if v.len() == 0 {
            None
        } else {
            Some(v)
        },
        None => None,
    }
}

/// Largest whole part a fixed-point setting may carry.
pub const PARSE_INT_LIMIT: i64 = 9_000_000_000_000_000;

/// The character is a decimal digit.
pub open spec fn spec_is_digit(c: char) -> bool {
    '0' <= c <= '9'
}

/// The numeric value of a decimal digit character.
pub open spec fn spec_digit_val(c: char) -> int {
    c as int - '0' as int
}

/// Every character of the sequence is a decimal digit.
pub open spec fn spec_all_digits(s: Seq<char>) -> bool {
    forall|i: int| 0 <= i < s.len() ==> spec_is_digit(#[trigger] s[i])
}

/// The value of a sequence of decimal digits, most significant first.
pub open spec fn spec_digits_val(s: Seq<char>) -> int
    decreases s.len(),
{
    if s.len() == 0 {
        0
    } else {
        spec_digits_val(s.drop_last()) * 10 + spec_digit_val(s.last())
    }
}

/// The fraction digits of a fixed-point setting, in thousandths: the
/// first three digits decide, further digits are cut off.
pub open spec fn spec_frac_milli(frac: Seq<char>) -> int {
    if frac.len() >= 3 {
        spec_digits_val(frac.take(3))
    } else if frac.len() == 2 {
        spec_digits_val(frac) * 10
    } else if frac.len() == 1 {
        spec_digits_val(frac) * 100
    } else {
        0
    }
}

/// What a decimal setting string means in thousandths: an optional minus
/// sign, a non-empty whole part, and optionally a dot with a non-empty
/// fraction part, all in decimal digits. A whole part beyond
/// `PARSE_INT_LIMIT` does not fit and means nothing.
pub open spec fn spec_parse_milli(s: Seq<char>) -> Option<int> {
    let neg = s.len() > 0 && s[0] == '-';
    let body = if neg {
        s.drop_first()
    } else {
        s
    };
    let d = spec_dot_index(body);
    let whole = body.take(d);
    let frac = if d < body.len() {
        body.skip(d + 1)
    } else {
        Seq::<char>::empty()
    };
    if whole.len() == 0 || !spec_all_digits(whole) || (d < body.len() && (frac.len() == 0
        || !spec_all_digits(frac))) || spec_digits_val(whole) > PARSE_INT_LIMIT {
        None
    } else {
        let magnitude = spec_digits_val(whole) * 1000 + spec_frac_milli(frac);
        if neg {
            Some(-magnitude)
        } else {
            Some(magnitude)
        }
    }
}

/// A sequence of decimal digits has a non-negative value, and no prefix
/// of it is worth more than the whole.
pub proof fn lemma_digits_val_prefix(s: Seq<char>, j: int)
    requires
        spec_all_digits(s),
        0 <= j <= s.len(),
    ensures
        0 <= spec_digits_val(s.take(j)) <= spec_digits_val(s),
    decreases s.len(),
{
    if s.len() == 0 {
    } else {
        assert(spec_all_digits(s.drop_last())) by {
            assert(forall|i: int|
                0 <= i < s.len() - 1 ==> spec_is_digit(#[trigger] s.drop_last()[i])
                    == spec_is_digit(s[i]));
        }
        lemma_digits_val_prefix(s.drop_last(), if j <= s.len() - 1 {
            j
        } else {
            s.len() - 1
        });
        if j <= s.len() - 1 {
            assert(s.take(j) =~= s.drop_last().take(j));
        } else {
            assert(s.take(j) =~= s);
        }
        assert(spec_digit_val(s.last()) >= 0);
    }
}

/// Index of the first dot in a key, or the key's length when it has none.
pub open spec fn spec_dot_index(k: Seq<char>) -> int
    decreases k.len(),
{
    if k.len() == 0 {
        0
    } else if k[0] == '.' {
        0
    } else {
        1 + spec_dot_index(k.drop_first())
    }
}

/// The top-level prefix of a dotted key: everything before the first dot,
/// or the whole key when it has none.
pub open spec fn spec_key_prefix(k: Seq<char>) -> Seq<char> {
    k.take(spec_dot_index(k))
}

/// The four reserved top-level prefixes, which hold global settings and
/// are not application namespaces.
pub open spec fn spec_reserved_prefix(p: Seq<char>) -> bool {
    p == "swipe"@ || p == "rotation"@ || p == "pinch"@ || p == "gesture"@
}

/// The application namespaces of a document: every top-level prefix of a
/// key of the document, except the four reserved ones.
pub open spec fn spec_apps(doc: Map<Seq<char>, Seq<char>>) -> Set<Seq<char>> {
    Set::new(
        |p: Seq<char>|
            !spec_reserved_prefix(p) && exists|k: Seq<char>|
                doc.contains_key(k) && spec_key_prefix(k) == p,
    )
}

/// One of the strings in the list reads as this sequence of characters.
pub open spec fn spec_views_contain(s: Seq<String>, p: Seq<char>) -> bool {
    exists|i: int| 0 <= i < s.len() && s[i]@ == p
}

/// The contents of a list of strings, as a set of character sequences.
pub open spec fn spec_string_views(s: Seq<String>) -> Set<Seq<char>> {
    Set::new(|p: Seq<char>| spec_views_contain(s, p))
}

/// One of the first `n` entries has a key with this top-level prefix.
pub open spec fn spec_prefix_among(entries: Seq<(String, String)>, n: int, p: Seq<char>) -> bool {
    exists|i: int| 0 <= i < n && spec_key_prefix(#[trigger] entries[i].0@) == p
}

/// The first dot stands at `spec_dot_index`: no dot before it, and a dot
/// there unless the key has none.
pub proof fn lemma_dot_index_characterization(k: Seq<char>)
    ensures
        0 <= spec_dot_index(k) <= k.len(),
        forall|j: int| 0 <= j < spec_dot_index(k) ==> k[j] != '.',
        spec_dot_index(k) < k.len() ==> k[spec_dot_index(k)] == '.',
    decreases k.len(),
{
    if k.len() != 0 && k[0] != '.' {
        lemma_dot_index_characterization(k.drop_first());
        assert forall|j: int| 0 <= j < spec_dot_index(k) implies k[j] != '.' by {
            if j > 0 {
                assert(k.drop_first()[j - 1] != '.');
            }
        }
    }
}

/// Any position with no dot before it, and a dot at it or the key's end,
/// is `spec_dot_index`.
pub proof fn lemma_dot_index_unique(k: Seq<char>, i: int)
    requires
        0 <= i <= k.len(),
        forall|j: int| 0 <= j < i ==> k[j] != '.',
        i < k.len() ==> k[i] == '.',
    ensures
        i == spec_dot_index(k),
{
    lemma_dot_index_characterization(k);
}

/// Every key of a document's view is the key of one of its entries.
proof fn lemma_doc_lookup_dom(entries: Seq<(String, String)>, k: Seq<char>)
    ensures
        (spec_doc_lookup(entries, k) is Some) <==> exists|i: int|
            0 <= i < entries.len() && entries[i].0@ == k,
    decreases entries.len(),
{
    if entries.len() > 0 {
        lemma_doc_lookup_dom(entries.drop_last(), k);
        if entries.last().0@ == k {
            assert(entries[entries.len() - 1].0@ == k);
        } else {
            if spec_doc_lookup(entries, k) is Some {
                let i = choose|i: int|
                    0 <= i < entries.drop_last().len() && entries.drop_last()[i].0@ == k;
                assert(entries[i].0@ == k);
            }
            if exists|i: int| 0 <= i < entries.len() && entries[i].0@ == k {
                let i = choose|i: int| 0 <= i < entries.len() && entries[i].0@ == k;
                assert(i < entries.len() - 1);
                assert(entries.drop_last()[i].0@ == k);
            }
        }
    }
}

/// Index of the first dot at or after `start`, or the string's length
/// when there is none there.
fn first_dot_from(s: &str, start: usize) -> (r: usize)
    requires
        start <= s@.len(),
    ensures
        start <= r <= s@.len(),
        forall|j: int| start <= j < r ==> s@[j] != '.',
        r < s@.len() ==> s@[r as int] == '.',
{
    let n = s.unicode_len();
    let mut i: usize = start;
    while i < n
        invariant
            start <= i <= n,
            n == s@.len(),
            forall|j: int| start <= j < i ==> s@[j] != '.',
        ensures
            start <= i <= n,
            n == s@.len(),
            forall|j: int| start <= j < i ==> s@[j] != '.',
            i < n ==> s@[i as int] == '.',
        decreases n - i,
    {
        if s.get_char(i) == '.' {
            break ;
        }
        i = i + 1;
    }
    i
}

/// Index of the first dot in a key, or its length when it has none.
fn first_dot(k: &str) -> (r: usize)
    ensures
        r == spec_dot_index(k@),
{
    let i = first_dot_from(k, 0);
    proof {
        lemma_dot_index_unique(k@, i as int);
    }
    i
}

/// The top-level prefix of a dotted key.
fn key_prefix(k: &str) -> (r: String)
    ensures
        r@ == spec_key_prefix(k@),
{
    let i = first_dot(k);
    proof {
        lemma_dot_index_characterization(k@);
        assert(k@.subrange(0, i as int) =~= k@.take(i as int));
    }
    k.substring_char(0, i).to_owned()
}

/// Reads one decimal setting string as a fixed-point value in
/// thousandths: `0.3` is 300, `-1.25` is -1250, fraction digits past the
/// third are cut off. Anything that is not an optional minus sign, a
/// whole part and at most one dot with a fraction part, all in decimal
/// digits, means nothing; so does a whole part beyond `PARSE_INT_LIMIT`.
#[verifier::loop_isolation(false)]
#[verifier::rlimit(100)]
pub fn parse_milli(s: &str) -> (r: Option<i64>)
    ensures
        match r {
            Some(m) => spec_parse_milli(s@) == Some(m as int),
            None => spec_parse_milli(s@) is None,
        },
{
    let n = s.unicode_len();
    let neg = n > 0 && s.get_char(0) == '-';
    let start: usize = if neg {
        1
    } else {
        0
    };
    let ghost body = if neg {
        s@.drop_first()
    } else {
        s@
    };
    proof {
        assert(body =~= s@.skip(start as int));
    }
    // Find the first dot of the body, if any.
    let ad: usize = first_dot_from(s, start);
    let ghost d = ad as int - start as int;
    proof {
        assert forall|j: int| 0 <= j < d implies body[j] != '.' by {
            assert(s@[start as int + j] != '.');
        }
        lemma_dot_index_unique(body, d);
    }
    let ghost whole = body.take(d);
    proof {
        assert(whole =~= s@.subrange(start as int, ad as int));
    }
    if ad == start {
        // Empty whole part: nothing before the dot (or nothing at all).
        return None;
    }
    // Scan the whole part.
    let mut acc: i64 = 0;
    let mut j: usize = start;
    while j < ad
        invariant
            start <= j <= ad <= n,
            n == s@.len(),
            whole == s@.subrange(start as int, ad as int),
            0 <= acc <= PARSE_INT_LIMIT,
            spec_all_digits(s@.subrange(start as int, j as int)),
            acc == spec_digits_val(s@.subrange(start as int, j as int)),
        decreases ad - j,
    {
        let c = s.get_char(j);
        proof {
            assert(s@.subrange(start as int, j as int + 1).drop_last() =~= s@.subrange(
                start as int,
                j as int,
            ));
            assert(s@.subrange(start as int, j as int + 1).last() == s@[j as int]);
        }
        if !('0' <= c && c <= '9') {
            proof {
                assert(whole[j as int - start as int] == c);
                assert(!spec_all_digits(whole));
            }
            return None;
        }
        let dv: i64 = (c as u32 - '0' as u32) as i64;
        let next = acc * 10 + dv;
        if next > PARSE_INT_LIMIT {
            proof {
                if spec_all_digits(whole) {
                    assert(whole.take(j as int - start as int + 1) =~= s@.subrange(
                        start as int,
                        j as int + 1,
                    ));
                    lemma_digits_val_prefix(whole, j as int - start as int + 1);
                }
            }
            return None;
        }
        acc = next;
        j = j + 1;
    }
    proof {
        assert(s@.subrange(start as int, ad as int) == whole);
    }
    // Scan the fraction part, if a dot was found.
    let mut f: i64 = 0;
    let mut count: usize = 0;
    let ghost frac = if d < body.len() {
        body.skip(d + 1)
    } else {
        Seq::<char>::empty()
    };
    if ad < n {
        let fo = ad + 1;
        proof {
            assert(frac =~= s@.subrange(fo as int, n as int));
        }
        if fo == n {
            // A dot with an empty fraction part.
            return None;
        }
        let mut j2: usize = fo;
        while j2 < n
            invariant
                fo <= j2 <= n,
                n == s@.len(),
                frac == s@.subrange(fo as int, n as int),
                spec_all_digits(s@.subrange(fo as int, j2 as int)),
                count == (if j2 - fo < 3 {
                    j2 - fo
                } else {
                    3
                }),
                f == spec_digits_val(s@.subrange(fo as int, fo as int + count as int)),
                count == 0 ==> f == 0,
                count <= 1 ==> f <= 9,
                count <= 2 ==> f <= 99,
                0 <= f <= 999,
            decreases n - j2,
        {
            let c = s.get_char(j2);
            proof {
                assert(s@.subrange(fo as int, j2 as int + 1).drop_last() =~= s@.subrange(
                    fo as int,
                    j2 as int,
                ));
                assert(s@.subrange(fo as int, j2 as int + 1).last() == s@[j2 as int]);
            }
            if !('0' <= c && c <= '9') {
                proof {
                    assert(frac[j2 as int - fo as int] == c);
                    assert(!spec_all_digits(frac));
                }
                return None;
            }
            if j2 - fo < 3 {
                let dv: i64 = (c as u32 - '0' as u32) as i64;
                proof {
                    assert(s@.subrange(fo as int, fo as int + count as int + 1).drop_last()
                        =~= s@.subrange(fo as int, fo as int + count as int));
                    let fc: int = fo as int + count as int;
                    assert(s@.subrange(fo as int, fc + 1).last() == s@[fc]);
                }
                f = f * 10 + dv;
                count = count + 1;
            }
            j2 = j2 + 1;
        }
        proof {
            assert(spec_all_digits(frac));
        }
    }
    let f3: i64 = if count >= 3 {
        f
    } else if count == 2 {
        f * 10
    } else if count == 1 {
        f * 100
    } else {
        f
    };
    proof {
        if ad < n {
            if frac.len() >= 3 {
                assert(frac.take(3) =~= s@.subrange(ad as int + 1, ad as int + 4));
            }
        }
        assert(f3 == spec_frac_milli(frac));
    }
    let magnitude: i64 = acc * 1000 + f3;
    if neg {
        Some(-magnitude)
    } else {
        Some(magnitude)
    }
}

/// The prefix is one of the four reserved ones.
fn is_reserved(p: &String) -> (r: bool)
    ensures
        r == spec_reserved_prefix(p@),
{
    *p == String::from_str("swipe") || *p == String::from_str("rotation") || *p
        == String::from_str("pinch") || *p == String::from_str("gesture")
}

/// The list already holds a string with this content.
fn contains_string(v: &Vec<String>, p: &String) -> (r: bool)
    ensures
        r == exists|i: int| 0 <= i < v@.len() && v@[i]@ == p@,
{
    let mut i: usize = 0;
    while i < v.len()
        invariant
            0 <= i <= v@.len(),
            forall|j: int| 0 <= j < i ==> v@[j]@ != p@,
        decreases v@.len() - i,
    {
        if v[i] == *p {
            return true;
        }
        i = i + 1;
    }
    false
}

/// Resolver of gesture settings over a configuration document.
pub struct GestureActions {
    config: ConfigDocument,
}

impl View for GestureActions {
    type V = Map<Seq<char>, Seq<char>>;

    closed spec fn view(&self) -> Map<Seq<char>, Seq<char>> {
        self.config@
    }
}

impl GestureActions {
    /// A resolver over the given document.
    pub fn new_with_config(config: ConfigDocument) -> (a: GestureActions)
        ensures
            a@ == config@,
    {
        GestureActions { config }
    }

    /// Replaces the whole document at once. A reader sees either the old
    /// document or the new one entire, never a mixture: the resolver's
    /// view after the call is exactly the new document's.
    pub fn reload(&mut self, config: ConfigDocument)
        ensures
            final(self)@ == config@,
    {
        self.config = config;
    }

    /// Looks one setting up, verbatim.
    pub fn get(&self, setting: &str) -> (r: Option<String>)
        ensures
            match r {
                Some(v) => self@.contains_key(setting@) && v@ == self@[setting@],
                None => !self@.contains_key(setting@),
            },
    {
        self.config.get(setting)
    }

    /// The key a setting is looked up under for an application.
    pub fn key_for_app(setting: String, app: Option<&str>) -> (r: String)
        ensures
            r@ == spec_key_for_app(setting@, spec_app_view(app)),
    {
        match app {
            Some(a) => {
                let mut s: String = a.to_owned();
                s.append(".");
                s.append(setting.as_str());
                s
            },
            None => setting,
        }
    }

    /// The non-inherited lookup behind `is_specified` and `is_disabled`.
    fn get_no_inheritance(&self, setting: &str, app: Option<&str>) -> (r: Option<String>)
        ensures
            match r {
                Some(v) => spec_lookup_no_inheritance(self@, setting@, spec_app_view(app))
                    == Some(v@),
                None => spec_lookup_no_inheritance(self@, setting@, spec_app_view(app)) is None,
            },
    {
        match app {
            Some(_) => {
                let k = Self::key_for_app(setting.to_owned(), app);
                self.config.get(k.as_str())
            },
            None => self.config.get(setting),
        }
    }

    /// The setting exists verbatim — in the application's namespace when
    /// one is given, else globally — with no fallback; an explicit empty
    /// value counts as existing.
    pub fn is_specified(&self, setting: &str, app: Option<&str>) -> (r: bool)
        ensures
            r == (spec_lookup_no_inheritance(self@, setting@, spec_app_view(app)) is Some),
    {
        self.get_no_inheritance(setting, app).is_some()
    }

    /// The non-inherited value of the setting is exactly the empty string:
    /// the user explicitly turned the gesture off there. An absent key is
    /// not disabled, only unconfigured.
    pub fn is_disabled(&self, setting: &str, app: Option<&str>) -> (r: bool)
        ensures
            r == (match spec_lookup_no_inheritance(self@, setting@, spec_app_view(app)) {
                Some(v) => v.len() == 0,
                None => false,
            }),
    {
        match self.get_no_inheritance(setting, app) {
            Some(v) => v.as_str().is_empty(),
            None => false,
        }
    }

    /// Resolves a setting for an application: the application's own value
    /// when its key exists, else the global value, else nothing; an empty
    /// resolved value is filtered to nothing.
    pub fn get_for_app(&self, setting: &str, app: Option<&str>) -> (r: Option<String>)
        ensures
            match r {
                Some(v) => spec_resolve(self@, setting@, spec_app_view(app)) == Some(v@),
                None => spec_resolve(self@, setting@, spec_app_view(app)) is None,
            },
    {
        let layered = match self.get_no_inheritance(setting, app) {
            Some(v) => Some(v),
            None => self.get(setting),
        };
        match layered {
            Some(v) => {
                if v.as_str().is_empty() {
                    None
                } else {
                    Some(v)
                }
            },
            None => None,
        }
    }

    /// Enumerates the application namespaces: the top-level prefixes of
    /// the document's keys, without duplicates, excluding exactly the
    /// four reserved prefixes and nothing else.
    pub fn apps(&self) -> (r: Option<Vec<String>>)
        ensures
            r is Some,
            forall|a: int, b: int|
                0 <= a < b < r.unwrap()@.len() ==> r.unwrap()@[a]@ != r.unwrap()@[b]@,
            spec_string_views(r.unwrap()@) == spec_apps(self@),
    {
        let entries = &self.config.entries;
        let mut result: Vec<String> = Vec::new();
        let mut idx: usize = 0;
        while idx < entries.len()
            invariant
                0 <= idx <= entries@.len(),
                forall|a: int, b: int| 0 <= a < b < result@.len() ==> result@[a]@ != result@[b]@,
                forall|a: int|
                    0 <= a < result@.len() ==> !spec_reserved_prefix(#[trigger] result@[a]@)
                        && spec_prefix_among(entries@, idx as int, result@[a]@),
                forall|i: int|
                    0 <= i < idx ==> spec_reserved_prefix(
                        spec_key_prefix(#[trigger] entries@[i].0@),
                    ) || spec_views_contain(result@, spec_key_prefix(entries@[i].0@)),
            decreases entries@.len() - idx,
        {
            let p = key_prefix(entries[idx].0.as_str());
            let ghost prev = result@;
            if !is_reserved(&p) && !contains_string(&result, &p) {
                result.push(p);
            }
            idx = idx + 1;
            proof {
                assert forall|a: int|
                    0 <= a < result@.len() implies !spec_reserved_prefix(#[trigger] result@[a]@)
                    && spec_prefix_among(entries@, idx as int, result@[a]@) by {
                    if a < prev.len() {
                        assert(result@[a] == prev[a]);
                        assert(spec_prefix_among(entries@, idx as int - 1, prev[a]@));
                        let i = choose|i: int|
                            0 <= i < idx - 1 && spec_key_prefix(#[trigger] entries@[i].0@)
                                == prev[a]@;
                        assert(spec_prefix_among(entries@, idx as int, result@[a]@));
                    } else {
                        assert(result@[a]@ == spec_key_prefix(entries@[idx - 1].0@));
                        assert(spec_prefix_among(entries@, idx as int, result@[a]@));
                    }
                }
                assert forall|i: int|
                    0 <= i < idx implies spec_reserved_prefix(
                    spec_key_prefix(#[trigger] entries@[i].0@),
                ) || spec_views_contain(result@, spec_key_prefix(entries@[i].0@)) by {
                    let q = spec_key_prefix(entries@[i].0@);
                    if !spec_reserved_prefix(q) {
                        if i == idx - 1 {
                            if spec_views_contain(prev, q) {
                                let a = choose|a: int| 0 <= a < prev.len() && prev[a]@ == q;
                                assert(result@[a]@ == q);
                                assert(spec_views_contain(result@, q));
                            } else {
                                assert(result@[result@.len() - 1]@ == q);
                                assert(spec_views_contain(result@, q));
                            }
                        } else {
                            let a = choose|a: int| 0 <= a < prev.len() && prev[a]@ == q;
                            assert(result@[a]@ == q);
                            assert(spec_views_contain(result@, q));
                        }
                    }
                }
            }
        }
        proof {
            assert forall|p: Seq<char>|
                spec_views_contain(result@, p) implies spec_apps(self@).contains(p) by {
                let a = choose|a: int| 0 <= a < result@.len() && result@[a]@ == p;
                let i = choose|i: int|
                    0 <= i < entries@.len() && spec_key_prefix(#[trigger] entries@[i].0@) == p;
                lemma_doc_lookup_dom(entries@, entries@[i].0@);
                assert(self@.contains_key(entries@[i].0@));
            }
            assert forall|p: Seq<char>|
                spec_apps(self@).contains(p) implies spec_views_contain(result@, p) by {
                let k = choose|k: Seq<char>| self@.contains_key(k) && spec_key_prefix(k) == p;
                lemma_doc_lookup_dom(entries@, k);
                let i = choose|i: int| 0 <= i < entries@.len() && entries@[i].0@ == k;
                assert(!spec_reserved_prefix(spec_key_prefix(entries@[i].0@)));
            }
            assert(spec_string_views(result@) =~= spec_apps(self@));
        }
        Some(result)
    }
}

/// What the dispatch loop should do with one classified gesture.
#[derive(Clone, Debug, PartialEq, Eq)]
pub enum ActionResolution {
    /// An action is configured: send this string to the executor.
    Dispatch(String),
    /// The resolved action is the empty disablement sentinel: skip the
    /// gesture, it was explicitly turned off.
    NoAction,
    /// Neither the application's namespace nor the global settings carry
    /// the gesture's key: the gesture is unconfigured.
    Unconfigured,
}

impl GestureActions {
    /// Reads a fixed-point setting in thousandths (the early-fire trigger
    /// thresholds), from a verbatim lookup of the key.
    pub fn get_milli(&self, key: &str) -> (r: Option<i64>)
        ensures
            match spec_lookup(self@, key@) {
                Some(v) => match r {
                    Some(m) => spec_parse_milli(v) == Some(m as int),
                    None => spec_parse_milli(v) is None,
                },
                None => r is None,
            },
    {
        match self.get(key) {
            Some(v) => parse_milli(v.as_str()),
            None => None,
        }
    }

    /// What to do for a classified gesture in the given application
    /// context: dispatch the configured action string, skip the gesture
    /// because its resolved action is the empty disablement sentinel, or
    /// report it unconfigured.
    pub fn resolve_action(&self, t: &GestureType, app: Option<&str>) -> (r: ActionResolution)
        ensures
            match r {
                ActionResolution::Dispatch(v) => spec_layered_lookup(
                    self@,
                    spec_config_key(*t),
                    spec_app_view(app),
                ) == Some(v@) && v@.len() != 0,
                ActionResolution::NoAction => spec_layered_lookup(
                    self@,
                    spec_config_key(*t),
                    spec_app_view(app),
                ) matches Some(v) && v.len() == 0,
                ActionResolution::Unconfigured => spec_layered_lookup(
                    self@,
                    spec_config_key(*t),
                    spec_app_view(app),
                ) is None,
            },
    {
        let key = t.to_config();
        let layered = match self.get_no_inheritance(key.as_str(), app) {
            Some(v) => Some(v),
            None => self.get(key.as_str()),
        };
        match layered {
            Some(v) => {
                if v.as_str().is_empty() {
                    ActionResolution::NoAction
                } else {
                    ActionResolution::Dispatch(v)
                }
            },
            None => ActionResolution::Unconfigured,
        }
    }
}

/// Resolution layering: an application's own setting wins when present,
/// the global setting answers otherwise, and nothing answers when neither
/// key exists. (A resolved value that is the empty disablement sentinel
/// is filtered to nothing, so the first two parts speak of non-empty
/// values.)
pub proof fn lemma_resolution_layering(
    doc: Map<Seq<char>, Seq<char>>,
    setting: Seq<char>,
    app: Seq<char>,
)
    ensures
        doc.contains_key(spec_key_for_app(setting, Some(app))) && doc[spec_key_for_app(
            setting,
            Some(app),
        )].len() != 0 ==> spec_resolve(doc, setting, Some(app)) == Some(
            doc[spec_key_for_app(setting, Some(app))],
        ),
        !doc.contains_key(spec_key_for_app(setting, Some(app))) && doc.contains_key(setting)
            && doc[setting].len() != 0 ==> spec_resolve(doc, setting, Some(app)) == Some(
            doc[setting],
        ),
        !doc.contains_key(spec_key_for_app(setting, Some(app))) && !doc.contains_key(setting)
            ==> spec_resolve(doc, setting, Some(app)) is None,
{
}

/// Wholesale replacement is atomic at the document level: a document
/// whose view equals the new one answers every key from the new document
/// alone — full keys and values — and no key the old document alone held
/// survives. A reader therefore sees the old document or the new one
/// entire, never a mixture of the two.
pub proof fn lemma_reload_atomic(
    old_doc: Map<Seq<char>, Seq<char>>,
    new_doc: Map<Seq<char>, Seq<char>>,
    current: Map<Seq<char>, Seq<char>>,
)
    requires
        current == new_doc,
    ensures
        forall|k: Seq<char>| #[trigger] current.contains_key(k) <==> new_doc.contains_key(k),
        forall|k: Seq<char>| #[trigger] current.contains_key(k) ==> current[k] == new_doc[k],
        forall|k: Seq<char>|
            old_doc.contains_key(k) && !new_doc.contains_key(k) ==> !(
            #[trigger] current.contains_key(k)),
{
}

/// The enumerated application namespaces exclude exactly the four
/// reserved prefixes and nothing else: a reserved prefix is never an
/// application, and every other top-level prefix of a document key is one.
pub proof fn lemma_apps_excludes_exactly_reserved(doc: Map<Seq<char>, Seq<char>>)
    ensures
        forall|p: Seq<char>| spec_apps(doc).contains(p) ==> !spec_reserved_prefix(p),
        forall|k: Seq<char>|
            doc.contains_key(k) && !spec_reserved_prefix(spec_key_prefix(k)) ==> spec_apps(
                doc,
            ).contains(spec_key_prefix(k)),
{
}

} // verus!

