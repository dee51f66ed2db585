//! Character-level text operations: whitespace trimming and ASCII case folding.

use vstd::prelude::*;

verus! {

/// Whether `c` carries the Unicode `White_Space` property.
pub open spec fn is_space(c: char) -> bool {
    let n = c as u32;
    ||| (0x9 <= n && n <= 0xD)
    ||| n == 0x20
    ||| n == 0x85
    ||| n == 0xA0
    ||| n == 0x1680
    ||| (0x2000 <= n && n <= 0x200A)
    ||| n == 0x2028
    ||| n == 0x2029
    ||| n == 0x202F
    ||| n == 0x205F
    ||| n == 0x3000
}

/// The ASCII lower-case form of `c`; every other character is unchanged.
pub open spec fn lower(c: char) -> char {
    if 'A' <= c && c <= 'Z' {
        ((c as u32) + 32) as char
    } else {
        c
    }
}

/// Executable test for [`is_space`].
pub fn char_is_space(c: char) -> (r: bool)
    ensures
        r == is_space(c),
{
    let n = c as u32;
    (0x9 <= n && n <= 0xD) || n == 0x20 || n == 0x85 || n == 0xA0 || n == 0x1680 || (0x2000 <= n
        && n <= 0x200A) || n == 0x2028 || n == 0x2029 || n == 0x202F || n == 0x205F || n == 0x3000
}

/// Executable form of [`lower`].
pub fn char_lower(c: char) -> (r: char)
    ensures
        r == lower(c),
{
    if 'A' <= c && c <= 'Z' {
        let b = (c as u8) + 32;
        b as char
    } else {
        c
    }
}

/// The characters of `s`, in order.
pub fn chars_of(s: &str) -> (v: Vec<char>)
    ensures
        v@ == s@,
{
    let mut v: Vec<char> = Vec::new();
    for c in it: s.chars()
        invariant
            v@ == it.seq().take(it.index() as int),
            it.seq() == s@,
    {
        v.push(c);
    }
    v
}


/// `s` without its leading whitespace.
pub open spec fn trim_start(s: Seq<char>) -> Seq<char>
    decreases s.len(),
{
    if s.len() > 0 && is_space(s[0]) {
        trim_start(s.drop_first())
    } else {
        s
    }
}

/// `s` without its trailing whitespace.
pub open spec fn trim_end(s: Seq<char>) -> Seq<char>
    decreases s.len(),
{
    if s.len() > 0 && is_space(s.last()) {
        trim_end(s.drop_last())
    } else {
        s
    }
}

/// `s` without its surrounding whitespace.
pub open spec fn trim(s: Seq<char>) -> Seq<char> {
    trim_end(trim_start(s))
}

/// `s` with every ASCII upper-case letter folded to lower case.
pub open spec fn lowercase(s: Seq<char>) -> Seq<char> {
    s.map_values(|c: char| lower(c))
}

/// Appends `c` to `s`, through `String::push`.
#[verifier::external_body]
fn push_char(s: &mut String, c: char)
    ensures
        final(s)@ == old(s)@.push(c),
{
    s.push(c);
}

/// A string holding exactly the characters of `v`.
pub fn string_of(v: &Vec<char>) -> (s: String)
    ensures
        s@ == v@,
{
    let mut s = String::new();
    for i in 0..v.len()
        invariant
            s@ == v@.take(i as int),
    {
        push_char(&mut s, v[i]);
        assert(v@.take(i + 1) =~= v@.take(i as int).push(v@[i as int]));
    }
    assert(v@.take(v.len() as int) =~= v@);
    s
}

/// The index range `[start, end)` that [`trim`] keeps of `v`.
pub fn trimmed_bounds(v: &Vec<char>) -> (r: (usize, usize))
    ensures
        r.0 <= r.1 <= v.len(),
        trim(v@) == v@.subrange(r.0 as int, r.1 as int),
{
    let n = v.len();
    let mut i: usize = 0;
    assert(v@.subrange(0, n as int) =~= v@);
    while i < n && char_is_space(v[i])
        invariant
            i <= n == v.len(),
            trim_start(v@) == trim_start(v@.subrange(i as int, n as int)),
        decreases n - i,
    {
        assert(v@.subrange(i as int, n as int).drop_first() =~= v@.subrange(i + 1, n as int));
        i = i + 1;
    }
    assert(trim_start(v@.subrange(i as int, n as int)) == v@.subrange(i as int, n as int));
    let mut j: usize = n;
    while j > i && char_is_space(v[j - 1])
        invariant
            i <= j <= n == v.len(),
            trim_end(v@.subrange(i as int, n as int)) == trim_end(v@.subrange(i as int, j as int)),
        decreases j - i,
    {
        assert(v@.subrange(i as int, j as int).drop_last() =~= v@.subrange(i as int, j - 1));
        j = j - 1;
    }
    assert(trim_end(v@.subrange(i as int, j as int)) == v@.subrange(i as int, j as int));
    (i, j)
}

/// The surrounding-whitespace-free, ASCII-lower-cased form of `s`.
pub fn trim_lowercase(s: &str) -> (r: String)
    ensures
        r@ == lowercase(trim(s@)),
{
    let v = chars_of(s);
    let (start, end) = trimmed_bounds(&v);
    let mut out: Vec<char> = Vec::new();
    let mut k: usize = start;
    while k < end
        invariant
            start <= k <= end <= v.len(),
            out@ == lowercase(v@.subrange(start as int, k as int)),
        decreases end - k,
    {
        out.push(char_lower(v[k]));
        k = k + 1;
        assert(out@ =~= lowercase(v@.subrange(start as int, k as int)));
    }
    string_of(&out)
}


/// The surrounding-whitespace-free form of `s`.
pub fn trim_str(s: &str) -> (r: String)
    ensures
        r@ == trim(s@),
{
    let v = chars_of(s);
    let (start, end) = trimmed_bounds(&v);
    let mut out: Vec<char> = Vec::new();
    let mut k: usize = start;
    while k < end
        invariant
            start <= k <= end <= v.len(),
            out@ == v@.subrange(start as int, k as int),
        decreases end - k,
    {
        out.push(v[k]);
        k = k + 1;
        assert(out@ =~= v@.subrange(start as int, k as int));
    }
    string_of(&out)
}

/// The path `name` (relative) beneath `base`: `base` and `name` joined by one
/// `/`, which is left out where `base` is empty or already ends in `/`.
///
/// Paths in this library are `/`-separated text, as on Unix; a platform with
/// another separator, or a path that is not UTF-8, is not modelled.
pub open spec fn join_path(base: Seq<char>, name: Seq<char>) -> Seq<char> {
    if base.len() == 0 || base.last() == '/' {
        base + name
    } else {
        base + seq!['/'] + name
    }
}

/// Executable form of [`join_path`].
pub fn join(base: &str, name: &str) -> (r: String)
    ensures
        r@ == join_path(base@, name@),
{
    let chars = chars_of(base);
    let mut out = base.to_owned();
    if chars.len() > 0 && chars[chars.len() - 1] != '/' {
        out.append("/");
        proof {
            reveal_strlit("/");
            assert("/"@ =~= seq!['/']);
        }
    }
    out.append(name);
    out
}

/// Whether `a` and `b` hold the same characters.
pub fn same_text(a: &str, b: &str) -> (r: bool)
    ensures
        r == (a@ == b@),
{
    let x = chars_of(a);
    let y = chars_of(b);
    if x.len() != y.len() {
        return false;
    }
    for i in 0..x.len()
        invariant
            x@ == a@,
            y@ == b@,
            x@.len() == y@.len(),
            forall|k: int| 0 <= k < i ==> x@[k] == y@[k],
    {
        if x[i] != y[i] {
            return false;
        }
    }
    assert(a@ =~= b@);
    true
}

/// A string holding the characters of `v` from `start` up to `end`.
pub fn string_of_range(v: &Vec<char>, start: usize, end: usize) -> (s: String)
    requires
        start <= end <= v.len(),
    ensures
        s@ == v@.subrange(start as int, end as int),
{
    let mut s = String::new();
    let mut k: usize = start;
    while k < end
        invariant
            start <= k <= end <= v.len(),
            s@ == v@.subrange(start as int, k as int),
        decreases end - k,
    {
        push_char(&mut s, v[k]);
        k = k + 1;
        assert(s@ =~= v@.subrange(start as int, k as int));
    }
    s
}

/// `i` is the first position of `c` in `s`.
pub open spec fn first_at(s: Seq<char>, c: char, i: int) -> bool {
    &&& 0 <= i < s.len()
    &&& s[i] == c
    &&& forall|j: int| 0 <= j < i ==> s[j] != c
}

/// `s` split around its first `c`: what comes before it and what comes after.
/// Without a `c`, all of `s` and nothing.
pub open spec fn split_first(s: Seq<char>, c: char) -> (Seq<char>, Seq<char>) {
    if exists|i: int| first_at(s, c, i) {
        let i = choose|i: int| first_at(s, c, i);
        (s.subrange(0, i), s.subrange(i + 1, s.len() as int))
    } else {
        (s, Seq::empty())
    }
}

/// Two first positions of the same character are one position.
pub proof fn lemma_first_at_unique(s: Seq<char>, c: char, i: int, j: int)
    requires
        first_at(s, c, i),
        first_at(s, c, j),
    ensures
        i == j,
{
    if i < j {
        assert(s[i] != c);
    } else if j < i {
        assert(s[j] != c);
    }
}

/// A `c` after a stretch free of `c` splits `s` there.
pub proof fn lemma_split_at_first(s: Seq<char>, c: char, i: int)
    requires
        first_at(s, c, i),
    ensures
        split_first(s, c) == (s.subrange(0, i), s.subrange(i + 1, s.len() as int)),
{
    let k = choose|k: int| first_at(s, c, k);
    lemma_first_at_unique(s, c, i, k);
}

/// A sequence with no `c` is not split.
pub proof fn lemma_split_without(s: Seq<char>, c: char)
    requires
        forall|j: int| 0 <= j < s.len() ==> s[j] != c,
    ensures
        split_first(s, c) == (s, Seq::<char>::empty()),
{
    if exists|i: int| first_at(s, c, i) {
        let i = choose|i: int| first_at(s, c, i);
        assert(s[i] == c);
    }
}

/// Executable form of [`split_first`].
pub fn split_once(s: &str, c: char) -> (r: (String, String))
    ensures
        (r.0@, r.1@) == split_first(s@, c),
{
    let v = chars_of(s);
    for i in 0..v.len()
        invariant
            v@ == s@,
            forall|j: int| 0 <= j < i ==> v@[j] != c,
    {
        if v[i] == c {
            proof {
                lemma_split_at_first(s@, c, i as int);
            }
            return (string_of_range(&v, 0, i), string_of_range(&v, i + 1, v.len()));
        }
    }
    proof {
        lemma_split_without(s@, c);
    }
    (s.to_owned(), String::new())
}

/// The decimal digit for `d` (which is below ten).
pub open spec fn digit(d: nat) -> char {
    ((48 + d) as u32) as char
}

/// The decimal spelling of `n`, without leading zeros.
pub open spec fn decimal(n: nat) -> Seq<char>
    decreases n,
{
    if n < 10 {
        seq![digit(n)]
    } else {
        decimal(n / 10).push(digit(n % 10))
    }
}

/// The decimal spelling of `n`.
pub fn decimal_string(n: u64) -> (r: String)
    ensures
        r@ == decimal(n as nat),
    decreases n,
{
    let d = ((n % 10) as u8 + 48) as char;
    if n < 10 {
        let mut s = String::new();
        push_char(&mut s, d);
        assert(s@ =~= seq![digit(n as nat)]);
        s
    } else {
        let mut s = decimal_string(n / 10);
        push_char(&mut s, d);
        s
    }
}

/// `s` without its trailing `/` characters.
pub open spec fn strip_slashes(s: Seq<char>) -> Seq<char>
    decreases s.len(),
{
    if s.len() > 0 && s.last() == '/' {
        strip_slashes(s.drop_last())
    } else {
        s
    }
}

/// What follows the last `/` of `s` (all of `s` where it has none).
pub open spec fn after_last_slash(s: Seq<char>) -> Seq<char>
    decreases s.len(),
{
    if s.len() == 0 {
        s
    } else if s.last() == '/' {
        Seq::empty()
    } else {
        after_last_slash(s.drop_last()).push(s.last())
    }
}

/// The last component of a `/`-separated path, trailing `/`s ignored.
pub open spec fn file_name(path: Seq<char>) -> Seq<char> {
    after_last_slash(strip_slashes(path))
}

/// The last component of `path`, trailing `/`s ignored.
pub fn path_file_name(path: &str) -> (r: String)
    ensures
        r@ == file_name(path@),
{
    let v = chars_of(path);
    let n = v.len();
    let mut end: usize = n;
    assert(v@.subrange(0, n as int) =~= v@);
    while end > 0 && v[end - 1] == '/'
        invariant
            end <= n == v.len(),
            strip_slashes(v@) == strip_slashes(v@.subrange(0, end as int)),
        decreases end,
    {
        assert(v@.subrange(0, end as int).drop_last() =~= v@.subrange(0, end - 1));
        end = end - 1;
    }
    assert(strip_slashes(v@.subrange(0, end as int)) == v@.subrange(0, end as int));
    let mut start: usize = end;
    while start > 0 && v[start - 1] != '/'
        invariant
            start <= end <= n == v.len(),
            after_last_slash(v@.subrange(0, end as int)) == after_last_slash(
                v@.subrange(0, start as int),
            ) + v@.subrange(start as int, end as int),
        decreases start,
    {
        let ghost t = v@.subrange(0, start as int);
        assert(t.drop_last() =~= v@.subrange(0, start - 1));
        assert(after_last_slash(t) == after_last_slash(t.drop_last()).push(t.last()));
        assert(after_last_slash(t.drop_last()).push(t.last()) + v@.subrange(start as int, end as int)
            =~= after_last_slash(t.drop_last()) + v@.subrange(start - 1, end as int));
        start = start - 1;
    }
    if start > 0 {
        assert(after_last_slash(v@.subrange(0, start as int)) =~= Seq::<char>::empty());
    } else {
        assert(after_last_slash(v@.subrange(0, 0)) =~= Seq::<char>::empty());
    }
    assert(v@.subrange(start as int, end as int) =~= Seq::<char>::empty() + v@.subrange(
        start as int,
        end as int,
    ));
    string_of_range(&v, start, end)
}

/// `s` begins with `prefix`.
pub open spec fn has_prefix(s: Seq<char>, prefix: Seq<char>) -> bool {
    prefix.len() <= s.len() && s.subrange(0, prefix.len() as int) == prefix
}

/// Whether `s` begins with `prefix`.
pub fn starts_with(s: &str, prefix: &str) -> (r: bool)
    ensures
        r == has_prefix(s@, prefix@),
{
    let x = chars_of(s);
    let p = chars_of(prefix);
    if p.len() > x.len() {
        return false;
    }
    for i in 0..p.len()
        invariant
            x@ == s@,
            p@ == prefix@,
            p@.len() <= x@.len(),
            forall|k: int| 0 <= k < i ==> x@[k] == p@[k],
    {
        if x[i] != p[i] {
            assert(x@.subrange(0, p@.len() as int)[i as int] != p@[i as int]);
            return false;
        }
    }
    assert(x@.subrange(0, p@.len() as int) =~= p@);
    true
}

/// A name joined beneath any path is that path's last component, provided the
/// name is non-empty and holds no `/`.
pub proof fn lemma_file_name_of_join(base: Seq<char>, name: Seq<char>)
    requires
        name.len() > 0,
        forall|k: int| 0 <= k < name.len() ==> name[k] != '/',
    ensures
        file_name(join_path(base, name)) == name,
{
    let joined = join_path(base, name);
    let a = if base.len() == 0 || base.last() == '/' {
        base
    } else {
        base + seq!['/']
    };
    assert(joined =~= a + name);
    assert(joined.last() == name.last());
    lemma_after_last_slash_suffix(a, name);
}

/// What follows the last `/` of `a + b` is `b`, when `b` holds no `/` and `a`
/// is empty or ends in one.
pub proof fn lemma_after_last_slash_suffix(a: Seq<char>, b: Seq<char>)
    requires
        a.len() == 0 || a.last() == '/',
        forall|k: int| 0 <= k < b.len() ==> b[k] != '/',
    ensures
        after_last_slash(a + b) == b,
    decreases b.len(),
{
    if b.len() == 0 {
        assert(a + b =~= a);
        if a.len() > 0 {
            assert(after_last_slash(a) =~= Seq::<char>::empty());
        }
    } else {
        assert((a + b).drop_last() =~= a + b.drop_last());
        assert((a + b).last() == b.last());
        lemma_after_last_slash_suffix(a, b.drop_last());
        assert(b.drop_last().push(b.last()) =~= b);
    }
}

/// Every character of `s` is whitespace.
pub open spec fn all_space(s: Seq<char>) -> bool {
    forall|k: int| 0 <= k < s.len() ==> is_space(#[trigger] s[k])
}

/// `s` begins and ends with a non-whitespace character, or is empty.
pub open spec fn is_trimmed(s: Seq<char>) -> bool {
    s.len() > 0 ==> !is_space(s[0]) && !is_space(s.last())
}

/// Folding case never turns whitespace into non-whitespace or back.
pub proof fn lemma_lower_keeps_space(c: char)
    ensures
        is_space(lower(c)) == is_space(c),
        lower(lower(c)) == lower(c),
{
}

/// Leading whitespace does not change what `trim_start` keeps.
pub proof fn lemma_trim_start_skips_space(p: Seq<char>, s: Seq<char>)
    requires
        all_space(p),
    ensures
        trim_start(p + s) == trim_start(s),
    decreases p.len(),
{
    if p.len() > 0 {
        assert((p + s).drop_first() =~= p.drop_first() + s);
        assert((p + s)[0] == p[0]);
        lemma_trim_start_skips_space(p.drop_first(), s);
    } else {
        assert(p + s =~= s);
    }
}

/// Trailing whitespace does not change what `trim_end` keeps.
pub proof fn lemma_trim_end_skips_space(s: Seq<char>, q: Seq<char>)
    requires
        all_space(q),
    ensures
        trim_end(s + q) == trim_end(s),
    decreases q.len(),
{
    if q.len() > 0 {
        assert((s + q).drop_last() =~= s + q.drop_last());
        assert((s + q).last() == q.last());
        lemma_trim_end_skips_space(s, q.drop_last());
    } else {
        assert(s + q =~= s);
    }
}

/// A whitespace-only sequence trims to nothing from the front.
pub proof fn lemma_trim_start_all_space(q: Seq<char>)
    requires
        all_space(q),
    ensures
        trim_start(q) =~= Seq::<char>::empty(),
{
    lemma_trim_start_skips_space(q, Seq::<char>::empty());
    assert(q + Seq::<char>::empty() =~= q);
}

/// What `trim_start` keeps of `s + q`, for whitespace `q`.
pub proof fn lemma_trim_start_append_space(s: Seq<char>, q: Seq<char>)
    requires
        all_space(q),
    ensures
        trim_start(s).len() == 0 ==> trim_start(s + q).len() == 0,
        trim_start(s).len() > 0 ==> trim_start(s + q) == trim_start(s) + q,
    decreases s.len(),
{
    if s.len() == 0 {
        assert(s + q =~= q);
        lemma_trim_start_all_space(q);
    } else if is_space(s[0]) {
        assert((s + q).drop_first() =~= s.drop_first() + q);
        assert((s + q)[0] == s[0]);
        lemma_trim_start_append_space(s.drop_first(), q);
    } else {
        assert((s + q)[0] == s[0]);
    }
}

/// `trim_start` returns a suffix that does not begin with whitespace.
pub proof fn lemma_trim_start_shape(s: Seq<char>)
    ensures
        trim_start(s).len() <= s.len(),
        trim_start(s) == s.subrange(s.len() - trim_start(s).len(), s.len() as int),
        trim_start(s).len() > 0 ==> !is_space(trim_start(s)[0]),
    decreases s.len(),
{
    if s.len() > 0 && is_space(s[0]) {
        lemma_trim_start_shape(s.drop_first());
        assert(s.drop_first().subrange(
            s.drop_first().len() - trim_start(s).len(),
            s.drop_first().len() as int,
        ) =~= s.subrange(s.len() - trim_start(s).len(), s.len() as int));
    } else {
        assert(s.subrange(0, s.len() as int) =~= s);
    }
}

/// What `trim_start` drops is whitespace.
pub proof fn lemma_trim_start_drops_space(s: Seq<char>)
    ensures
        forall|k: int| 0 <= k < s.len() - trim_start(s).len() ==> is_space(#[trigger] s[k]),
    decreases s.len(),
{
    if s.len() > 0 && is_space(s[0]) {
        let t = s.drop_first();
        lemma_trim_start_drops_space(t);
        assert forall|k: int| 0 <= k < s.len() - trim_start(s).len() implies is_space(
            #[trigger] s[k],
        ) by {
            if k > 0 {
                assert(s[k] == t[k - 1]);
            }
        }
    }
}

/// What `trim_end` drops is whitespace.
pub proof fn lemma_trim_end_drops_space(s: Seq<char>)
    ensures
        forall|k: int| trim_end(s).len() <= k < s.len() ==> is_space(#[trigger] s[k]),
    decreases s.len(),
{
    if s.len() > 0 && is_space(s.last()) {
        let t = s.drop_last();
        lemma_trim_end_drops_space(t);
        lemma_trim_end_shape(t);
        assert forall|k: int| trim_end(s).len() <= k < s.len() implies is_space(#[trigger] s[k]) by {
            if k < s.len() - 1 {
                assert(s[k] == t[k]);
            }
        }
    }
}

/// `trim_end` returns a prefix that does not end with whitespace.
pub proof fn lemma_trim_end_shape(s: Seq<char>)
    ensures
        trim_end(s).len() <= s.len(),
        trim_end(s) == s.subrange(0, trim_end(s).len() as int),
        trim_end(s).len() > 0 ==> !is_space(trim_end(s).last()),
    decreases s.len(),
{
    if s.len() > 0 && is_space(s.last()) {
        lemma_trim_end_shape(s.drop_last());
        assert(s.drop_last().subrange(0, trim_end(s).len() as int) =~= s.subrange(
            0,
            trim_end(s).len() as int,
        ));
    } else {
        assert(s.subrange(0, s.len() as int) =~= s);
    }
}

/// What `trim` returns neither begins nor ends with whitespace.
pub proof fn lemma_trim_is_trimmed(s: Seq<char>)
    ensures
        is_trimmed(trim(s)),
{
    let t = trim_start(s);
    lemma_trim_start_shape(s);
    lemma_trim_end_shape(t);
    let u = trim_end(t);
    if u.len() > 0 {
        assert(u[0] == t[0]);
    }
}

/// A trimmed sequence is its own trim.
pub proof fn lemma_trimmed_is_fixed(s: Seq<char>)
    requires
        is_trimmed(s),
    ensures
        trim(s) == s,
{
}

/// Case folding keeps a trimmed sequence trimmed, and is idempotent.
pub proof fn lemma_lowercase_trimmed(s: Seq<char>)
    ensures
        is_trimmed(s) ==> is_trimmed(lowercase(s)),
        lowercase(lowercase(s)) == lowercase(s),
{
    if s.len() > 0 {
        lemma_lower_keeps_space(s[0]);
        lemma_lower_keeps_space(s.last());
    }
    assert forall|k: int| 0 <= k < s.len() implies lowercase(lowercase(s))[k] == lowercase(s)[k] by {
        lemma_lower_keeps_space(s[k]);
    }
    assert(lowercase(lowercase(s)) =~= lowercase(s));
}

/// Case folding commutes with trimming.
pub proof fn lemma_lowercase_trim_commute(s: Seq<char>)
    ensures
        trim_start(lowercase(s)) == lowercase(trim_start(s)),
        trim_end(lowercase(s)) == lowercase(trim_end(s)),
        trim(lowercase(s)) == lowercase(trim(s)),
    decreases s.len(),
{
    if s.len() > 0 {
        lemma_lower_keeps_space(s[0]);
        lemma_lower_keeps_space(s.last());
        assert(lowercase(s).drop_first() =~= lowercase(s.drop_first()));
        assert(lowercase(s).drop_last() =~= lowercase(s.drop_last()));
        lemma_lowercase_trim_commute(s.drop_first());
        lemma_lowercase_trim_commute(s.drop_last());
    }
    lemma_lowercase_trim_end_commute(trim_start(s));
}

/// Case folding commutes with trimming the end.
pub proof fn lemma_lowercase_trim_end_commute(s: Seq<char>)
    ensures
        trim_end(lowercase(s)) == lowercase(trim_end(s)),
    decreases s.len(),
{
    if s.len() > 0 {
        lemma_lower_keeps_space(s.last());
        assert(lowercase(s).drop_last() =~= lowercase(s.drop_last()));
        lemma_lowercase_trim_end_commute(s.drop_last());
    }
}


/// A character is whitespace exactly when Unicode gives it the `White_Space`
/// property: U+0009 to U+000D, U+0020, U+0085, U+00A0, U+1680, U+2000 to
/// U+200A, U+2028, U+2029, U+202F, U+205F and U+3000.
pub proof fn law_white_space_characters(c: char)
    ensures
        is_space(c) <==> {
            ||| 0x9 <= c as u32 <= 0xD
            ||| c as u32 == 0x20
            ||| c as u32 == 0x85
            ||| c as u32 == 0xA0
            ||| c as u32 == 0x1680
            ||| 0x2000 <= c as u32 <= 0x200A
            ||| c as u32 == 0x2028
            ||| c as u32 == 0x2029
            ||| c as u32 == 0x202F
            ||| c as u32 == 0x205F
            ||| c as u32 == 0x3000
        },
{
}

/// Splitting at the first `c`: what comes before holds no `c`, and where `s`
/// holds a `c`, the two parts with that `c` between them make up `s`; where it
/// holds none, the first part is all of `s` and the second is empty.
pub proof fn law_split_first_is_at_the_first(s: Seq<char>, c: char)
    ensures
        forall|k: int|
            0 <= k < split_first(s, c).0.len() ==> #[trigger] split_first(s, c).0[k] != c,
        (exists|k: int| 0 <= k < s.len() && s[k] == c) ==> s == split_first(s, c).0 + seq![c]
            + split_first(s, c).1,
        (forall|k: int| 0 <= k < s.len() ==> s[k] != c) ==> split_first(s, c).0 == s
            && split_first(s, c).1.len() == 0,
{
    if exists|i: int| first_at(s, c, i) {
        let i = choose|i: int| first_at(s, c, i);
        assert(s =~= s.subrange(0, i) + seq![c] + s.subrange(i + 1, s.len() as int));
    } else {
        assert forall|k: int| 0 <= k < s.len() implies s[k] != c by {
            if s[k] == c {
                lemma_first_exists(s, c, k);
            }
        }
    }
}

/// Where `s` holds a `c` at `k`, it has a first one.
proof fn lemma_first_exists(s: Seq<char>, c: char, k: int)
    requires
        0 <= k < s.len(),
        s[k] == c,
    ensures
        exists|i: int| first_at(s, c, i),
    decreases k,
{
    if forall|j: int| 0 <= j < k ==> s[j] != c {
        assert(first_at(s, c, k));
    } else {
        let j = choose|j: int| 0 <= j < k && s[j] == c;
        lemma_first_exists(s, c, j);
    }
}

/// Joining puts `name` under `base`: the result begins with `base`, ends with
/// `name`, and holds at most one separator more than the two.
pub proof fn law_join_puts_the_name_under_the_base(base: Seq<char>, name: Seq<char>)
    ensures
        has_prefix(join_path(base, name), base),
        join_path(base, name).subrange(
            join_path(base, name).len() - name.len(),
            join_path(base, name).len() as int,
        ) == name,
        base.len() + name.len() <= join_path(base, name).len() <= base.len() + name.len() + 1,
        base.len() > 0 && base.last() != '/' ==> join_path(base, name)[base.len() as int] == '/',
{
    let j = join_path(base, name);
    assert(j.subrange(0, base.len() as int) =~= base);
    assert(j.subrange(j.len() - name.len(), j.len() as int) =~= name);
}

} // verus!
