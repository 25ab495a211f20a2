use vstd::prelude::*;

verus! {

/// A character with Unicode's `White_Space` property — the set `str::trim`
/// removes, and what the plain-text endpoint's body may be padded with.
pub open spec fn is_ws(c: char) -> bool {
    let u = c as u32;
    u == 0x09 || u == 0x0A || u == 0x0B || u == 0x0C || u == 0x0D || u == 0x20 || u == 0x85
        || u == 0xA0 || u == 0x1680 || (0x2000 <= u && u <= 0x200A) || u == 0x2028 || u == 0x2029
        || u == 0x202F || u == 0x205F || u == 0x3000
}

fn is_ws_char(c: char) -> (r: bool)
    ensures
        r == is_ws(c),
{
    let u = c as u32;
    u == 0x09 || u == 0x0A || u == 0x0B || u == 0x0C || u == 0x0D || u == 0x20 || u == 0x85
        || u == 0xA0 || u == 0x1680 || (0x2000 <= u && u <= 0x200A) || u == 0x2028 || u == 0x2029
        || u == 0x202F || u == 0x205F || u == 0x3000
}

/// `s` with every leading padding character removed.
pub open spec fn trim_front(s: Seq<char>) -> Seq<char>
    decreases s.len(),
{
    if s.len() > 0 && is_ws(s[0]) {
        trim_front(s.drop_first())
    } else {
        s
    }
}

/// `s` with every trailing padding character removed.
pub open spec fn trim_back(s: Seq<char>) -> Seq<char>
    decreases s.len(),
{
    if s.len() > 0 && is_ws(s[s.len() - 1]) {
        trim_back(s.drop_last())
    } else {
        s
    }
}

/// `s` with padding removed at both ends.
pub open spec fn trim_spec(s: Seq<char>) -> Seq<char> {
    trim_back(trim_front(s))
}

proof fn lemma_trim_front_at(s: Seq<char>, i: int)
    requires
        0 <= i <= s.len(),
        forall|k: int| 0 <= k < i ==> is_ws(s[k]),
        i < s.len() ==> !is_ws(s[i]),
    ensures
        trim_front(s) =~= s.subrange(i, s.len() as int),
    decreases i,
{
    if i == 0 {
        assert(trim_front(s) =~= s.subrange(0, s.len() as int));
    } else {
        let t = s.drop_first();
        assert(forall|k: int| 0 <= k < i - 1 ==> is_ws(#[trigger] t[k]));
        lemma_trim_front_at(t, i - 1);
        assert(t.subrange(i - 1, t.len() as int) =~= s.subrange(i, s.len() as int));
    }
}

proof fn lemma_trim_back_at(s: Seq<char>, j: int)
    requires
        -1 <= j < s.len(),
        forall|k: int| j < k < s.len() ==> is_ws(s[k]),
        j >= 0 ==> !is_ws(s[j]),
    ensures
        trim_back(s) =~= s.subrange(0, j + 1),
    decreases s.len() - j,
{
    if j == s.len() - 1 {
        assert(trim_back(s) =~= s.subrange(0, j + 1));
    } else {
        let t = s.drop_last();
        assert(forall|k: int| j < k < t.len() ==> is_ws(#[trigger] t[k]));
        lemma_trim_back_at(t, j);
        assert(t.subrange(0, j + 1) =~= s.subrange(0, j + 1));
    }
}

/// The body of the plain-text address endpoint, with the padding at both
/// ends removed.  The result never starts or ends with padding, and it is
/// empty exactly when the body held nothing but padding.
pub fn trimmed(s: &str) -> (r: String)
    ensures
        r@ == trim_spec(s@),
        r@.len() > 0 ==> !is_ws(r@[0]) && !is_ws(r@[r@.len() - 1]),
        r@.len() == 0 <==> (forall|k: int| 0 <= k < s@.len() ==> is_ws(s@[k])),
{
    let n = s.unicode_len();
    let mut i: usize = 0;
    while i < n && is_ws_char(s.get_char(i))
        invariant
            0 <= i <= n,
            n == s@.len(),
            forall|k: int| 0 <= k < i ==> is_ws(s@[k]),
        decreases n - i,
    {
        i += 1;
    }
    if i == n {
        proof {
            lemma_trim_front_at(s@, n as int);
            lemma_trim_back_at(trim_front(s@), -1);
        }
        return String::new();
    }
    let mut j: usize = n - 1;
    while is_ws_char(s.get_char(j))
        invariant
            i <= j < n,
            n == s@.len(),
            !is_ws(s@[i as int]),
            forall|k: int| j < k < n ==> is_ws(s@[k]),
        decreases j,
    {
        proof {
            assert(j != i);
        }
        j -= 1;
    }
    let r = s.substring_char(i, j + 1).to_owned();
    proof {
        lemma_trim_front_at(s@, i as int);
        let t = s@.subrange(i as int, s@.len() as int);
        assert(forall|k: int| j - i < k < t.len() ==> is_ws(#[trigger] t[k]));
        assert(!is_ws(t[j - i]));
        lemma_trim_back_at(t, j - i);
        assert(t.subrange(0, j - i + 1) =~= s@.subrange(i as int, j + 1));
        assert(!is_ws(s@[i as int]));
    }
    r
}

} // verus!
