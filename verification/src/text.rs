//! Text primitives with exact Unicode character classes.
use vstd::prelude::*;

verus! {

broadcast use vstd::string::group_string_axioms;

/// The Unicode `White_Space` property, which `char::is_whitespace` tests.
pub open spec fn is_whitespace_spec(c: char) -> bool {
    let v = c as u32;
    ||| 0x09 <= v <= 0x0D
    ||| v == 0x20
    ||| v == 0x85
    ||| v == 0xA0
    ||| v == 0x1680
    ||| 0x2000 <= v <= 0x200A
    ||| v == 0x2028
    ||| v == 0x2029
    ||| v == 0x202F
    ||| v == 0x205F
    ||| v == 0x3000
}

/// The Unicode general category `Cc`, which `char::is_control` tests.
pub open spec fn is_control_spec(c: char) -> bool {
    let v = c as u32;
    v <= 0x1F || (0x7F <= v && v <= 0x9F)
}

/// Whether `c` has the Unicode `White_Space` property.
pub fn is_whitespace(c: char) -> (result: bool)
    ensures
        result == is_whitespace_spec(c),
{
    let v = c as u32;
    (0x09 <= v && v <= 0x0D) || v == 0x20 || v == 0x85 || v == 0xA0 || v == 0x1680 || (0x2000 <= v
        && v <= 0x200A) || v == 0x2028 || v == 0x2029 || v == 0x202F || v == 0x205F || v == 0x3000
}

/// Whether `c` is a control character (general category `Cc`).
pub fn is_control(c: char) -> (result: bool)
    ensures
        result == is_control_spec(c),
{
    let v = c as u32;
    v <= 0x1F || (0x7F <= v && v <= 0x9F)
}

/// `s` without leading whitespace.
pub open spec fn trim_start_spec(s: Seq<char>) -> Seq<char>
    decreases s.len(),
{
    if s.len() > 0 && is_whitespace_spec(s[0]) {
        trim_start_spec(s.drop_first())
    } else {
        s
    }
}

/// `s` without trailing whitespace.
pub open spec fn trim_end_spec(s: Seq<char>) -> Seq<char>
    decreases s.len(),
{
    if s.len() > 0 && is_whitespace_spec(s.last()) {
        trim_end_spec(s.drop_last())
    } else {
        s
    }
}

/// `s` without leading and trailing whitespace, as `str::trim` returns it.
pub open spec fn trim_spec(s: Seq<char>) -> Seq<char> {
    trim_end_spec(trim_start_spec(s))
}

/// Every character of `s` is whitespace.
pub open spec fn is_blank_spec(s: Seq<char>) -> bool {
    forall|i: int| 0 <= i < s.len() ==> is_whitespace_spec(#[trigger] s[i])
}

/// `s` with every control character replaced by a space.
pub open spec fn controls_to_spaces_spec(s: Seq<char>) -> Seq<char> {
    Seq::new(
        s.len(),
        |i: int|
            if is_control_spec(s[i]) {
                ' '
            } else {
                s[i]
            },
    )
}

/// Appends `c` to `s` with `String::push`, which adds the character at the
/// end of the string; the contract claims just that.
#[verifier::external_body]
pub(crate) fn push_char(s: &mut String, c: char)
    ensures
        final(s)@ == old(s)@.push(c),
{
    s.push(c)
}

/// The characters of `s`, in order.
pub fn chars_of(s: &str) -> (chars: Vec<char>)
    ensures
        chars@ == s@,
{
    let mut chars: Vec<char> = Vec::new();
    for c in it: s.chars()
        invariant
            chars@ == it.seq().take(it.index()),
    {
        chars.push(c);
    }
    chars
}

/// A string made of `chars[start..end]`.
pub fn string_from_range(chars: &Vec<char>, start: usize, end: usize) -> (s: String)
    requires
        start <= end <= chars@.len(),
    ensures
        s@ == chars@.subrange(start as int, end as int),
{
    let mut s = String::new();
    let mut i: usize = start;
    while i < end
        invariant
            start <= i <= end <= chars@.len(),
            s@ == chars@.subrange(start as int, i as int),
        decreases end - i,
    {
        push_char(&mut s, chars[i]);
        proof {
            assert(chars@.subrange(start as int, i + 1) == chars@.subrange(start as int, i as int).push(
                chars@[i as int],
            ));
        }
        i = i + 1;
    }
    s
}

/// A copy of `s`.
pub fn copy_str(s: &str) -> (copy: String)
    ensures
        copy@ == s@,
{
    s.to_owned()
}

/// Whether two texts hold the same characters.
pub fn str_eq(a: &str, b: &str) -> (result: bool)
    ensures
        result == (a@ == b@),
{
    let x = chars_of(a);
    let y = chars_of(b);
    if x.len() != y.len() {
        return false;
    }
    let mut i: usize = 0;
    while i < x.len()
        invariant
            x@ == a@,
            y@ == b@,
            x@.len() == y@.len(),
            i <= x@.len(),
            forall|j: int| 0 <= j < i ==> x@[j] == y@[j],
        decreases x.len() - i,
    {
        if x[i] != y[i] {
            return false;
        }
        i = i + 1;
    }
    proof {
        assert(x@ =~= y@);
    }
    true
}

/// Whether `s` begins with `prefix`.
pub fn starts_with(s: &str, prefix: &str) -> (result: bool)
    ensures
        result == (prefix@.len() <= s@.len() && s@.subrange(0, prefix@.len() as int) == prefix@),
{
    let x = chars_of(s);
    let p = chars_of(prefix);
    if p.len() > x.len() {
        return false;
    }
    let mut i: usize = 0;
    while i < p.len()
        invariant
            x@ == s@,
            p@ == prefix@,
            p@.len() <= x@.len(),
            i <= p@.len(),
            forall|j: int| 0 <= j < i ==> x@[j] == p@[j],
        decreases p.len() - i,
    {
        if x[i] != p[i] {
            proof {
                assert(s@.subrange(0, prefix@.len() as int)[i as int] != prefix@[i as int]);
            }
            return false;
        }
        i = i + 1;
    }
    proof {
        assert(s@.subrange(0, prefix@.len() as int) =~= prefix@);
    }
    true
}

proof fn lemma_trim_start(s: Seq<char>, k: int)
    requires
        0 <= k <= s.len(),
        forall|i: int| 0 <= i < k ==> is_whitespace_spec(#[trigger] s[i]),
        k == s.len() || !is_whitespace_spec(s[k]),
    ensures
        trim_start_spec(s) == s.subrange(k, s.len() as int),
    decreases k,
{
    if k == 0 {
        assert(s.subrange(0, s.len() as int) =~= s);
    } else {
        let t = s.drop_first();
        assert forall|i: int| 0 <= i < k - 1 implies is_whitespace_spec(#[trigger] t[i]) by {
            assert(t[i] == s[i + 1]);
        }
        lemma_trim_start(t, k - 1);
        assert(t.subrange(k - 1, t.len() as int) =~= s.subrange(k, s.len() as int));
    }
}

proof fn lemma_trim_end(s: Seq<char>, k: int)
    requires
        0 <= k <= s.len(),
        forall|i: int| k <= i < s.len() ==> is_whitespace_spec(#[trigger] s[i]),
        k == 0 || !is_whitespace_spec(s[k - 1]),
    ensures
        trim_end_spec(s) == s.subrange(0, k),
    decreases s.len() - k,
{
    if k == s.len() {
        assert(s.subrange(0, k) =~= s);
    } else {
        let t = s.drop_last();
        assert forall|i: int| k <= i < t.len() implies is_whitespace_spec(#[trigger] t[i]) by {
            assert(t[i] == s[i]);
        }
        lemma_trim_end(t, k);
        assert(t.subrange(0, k) =~= s.subrange(0, k));
    }
}

proof fn lemma_trim_start_not_blank(s: Seq<char>)
    requires
        !is_blank_spec(s),
    ensures
        trim_start_spec(s).len() > 0,
        !is_whitespace_spec(trim_start_spec(s)[0]),
    decreases s.len(),
{
    if s.len() > 0 && is_whitespace_spec(s[0]) {
        let t = s.drop_first();
        assert(!is_blank_spec(t)) by {
            let i = choose|i: int| 0 <= i < s.len() && !is_whitespace_spec(#[trigger] s[i]);
            assert(t[i - 1] == s[i]);
        }
        lemma_trim_start_not_blank(t);
    }
}

proof fn lemma_trim_end_keeps_first(s: Seq<char>)
    requires
        s.len() > 0,
        !is_whitespace_spec(s[0]),
    ensures
        trim_end_spec(s).len() > 0,
        trim_end_spec(s)[0] == s[0],
    decreases s.len(),
{
    if is_whitespace_spec(s.last()) {
        lemma_trim_end_keeps_first(s.drop_last());
    }
}

/// Trimming text that is not blank leaves text that is not blank.
pub proof fn lemma_trim_not_blank(s: Seq<char>)
    ensures
        !is_blank_spec(s) ==> !is_blank_spec(trim_spec(s)),
{
    if !is_blank_spec(s) {
        lemma_trim_start_not_blank(s);
        lemma_trim_end_keeps_first(trim_start_spec(s));
        assert(!is_whitespace_spec(trim_spec(s)[0]));
    }
}

/// The position of the first character at or after `from` that is not
/// whitespace, or the end.
pub fn skip_whitespace(chars: &Vec<char>, from: usize) -> (end: usize)
    requires
        from <= chars@.len(),
    ensures
        from <= end <= chars@.len(),
        trim_start_spec(chars@.subrange(from as int, chars@.len() as int)) == chars@.subrange(
            end as int,
            chars@.len() as int,
        ),
{
    let n = chars.len();
    let mut end: usize = from;
    while end < n && is_whitespace(chars[end])
        invariant
            from <= end <= n == chars@.len(),
            forall|i: int| from <= i < end ==> is_whitespace_spec(#[trigger] chars@[i]),
        decreases n - end,
    {
        end = end + 1;
    }
    proof {
        let t = chars@.subrange(from as int, n as int);
        assert forall|i: int| 0 <= i < end - from implies is_whitespace_spec(#[trigger] t[i]) by {
            assert(t[i] == chars@[from + i]);
        }
        if end < n {
            assert(t[end - from] == chars@[end as int]);
        }
        lemma_trim_start(t, end - from);
        assert(t.subrange(end - from, t.len() as int) =~= chars@.subrange(end as int, n as int));
    }
    end
}

/// The bounds `[start, end)` of `trim_spec(chars)` inside `chars`.
fn trim_bounds(chars: &Vec<char>) -> (bounds: (usize, usize))
    ensures
        bounds.0 <= bounds.1 <= chars@.len(),
        trim_spec(chars@) == chars@.subrange(bounds.0 as int, bounds.1 as int),
        (bounds.0 == bounds.1) == is_blank_spec(chars@),
{
    let n = chars.len();
    let mut start: usize = 0;
    while start < n && is_whitespace(chars[start])
        invariant
            start <= n == chars@.len(),
            forall|i: int| 0 <= i < start ==> is_whitespace_spec(#[trigger] chars@[i]),
        decreases n - start,
    {
        start = start + 1;
    }
    let mut end: usize = n;
    while end > start && is_whitespace(chars[end - 1])
        invariant
            start <= end <= n == chars@.len(),
            forall|i: int| end <= i < n ==> is_whitespace_spec(#[trigger] chars@[i]),
            forall|i: int| 0 <= i < start ==> is_whitespace_spec(#[trigger] chars@[i]),
            start == n || !is_whitespace_spec(chars@[start as int]),
        decreases end - start,
    {
        end = end - 1;
    }
    proof {
        lemma_trim_start(chars@, start as int);
        let t = chars@.subrange(start as int, n as int);
        assert forall|i: int| end - start <= i < t.len() implies is_whitespace_spec(
            #[trigger] t[i],
        ) by {
            assert(t[i] == chars@[start + i]);
        }
        if end > start {
            assert(t[end - start - 1] == chars@[end - 1]);
        }
        lemma_trim_end(t, end - start);
        assert(t.subrange(0, end - start) =~= chars@.subrange(start as int, end as int));
        if start == end {
            assert forall|i: int| 0 <= i < chars@.len() implies is_whitespace_spec(
                #[trigger] chars@[i],
            ) by {}
        } else {
            assert(!is_whitespace_spec(chars@[start as int]));
        }
    }
    (start, end)
}

/// `s` without leading and trailing whitespace.
pub fn trim(s: &str) -> (trimmed: String)
    ensures
        trimmed@ == trim_spec(s@),
        (trimmed@.len() == 0) == is_blank_spec(s@),
{
    let chars = chars_of(s);
    let (start, end) = trim_bounds(&chars);
    string_from_range(&chars, start, end)
}

/// Whether `s` holds only whitespace (`s.trim().is_empty()`).
pub fn is_blank(s: &str) -> (result: bool)
    ensures
        result == is_blank_spec(s@),
        result == (trim_spec(s@).len() == 0),
{
    let chars = chars_of(s);
    let (start, end) = trim_bounds(&chars);
    start == end
}

/// `s` as single-line text: control characters become spaces and the
/// surrounding whitespace is removed.
pub fn sanitize_title(s: &str) -> (title: String)
    ensures
        title@ == trim_spec(controls_to_spaces_spec(s@)),
{
    let chars = chars_of(s);
    let mut mapped: Vec<char> = Vec::new();
    let mut i: usize = 0;
    while i < chars.len()
        invariant
            chars@ == s@,
            i <= chars@.len(),
            mapped@ == controls_to_spaces_spec(s@).subrange(0, i as int),
        decreases chars.len() - i,
    {
        let c = chars[i];
        if is_control(c) {
            mapped.push(' ');
        } else {
            mapped.push(c);
        }
        proof {
            assert(controls_to_spaces_spec(s@).subrange(0, i + 1) =~= controls_to_spaces_spec(
                s@,
            ).subrange(0, i as int).push(controls_to_spaces_spec(s@)[i as int]));
        }
        i = i + 1;
    }
    proof {
        assert(controls_to_spaces_spec(s@).subrange(0, chars@.len() as int) =~= controls_to_spaces_spec(
            s@,
        ));
    }
    let (start, end) = trim_bounds(&mapped);
    string_from_range(&mapped, start, end)
}

} // verus!
