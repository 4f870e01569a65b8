//! Prefix tests and substring replacement on character sequences.
use vstd::prelude::*;

verus! {

/// `p` is a prefix of `s`.
pub open spec fn has_prefix(s: Seq<char>, p: Seq<char>) -> bool {
    p.len() <= s.len() && s.subrange(0, p.len() as int) == p
}

/// `s` with every occurrence of `from` replaced by `to`, the occurrences
/// taken from left to right without overlap.
pub open spec fn replace_all(s: Seq<char>, from: Seq<char>, to: Seq<char>) -> Seq<char>
    recommends
        from.len() > 0,
    decreases s.len(),
{
    if s.len() == 0 || from.len() == 0 {
        s
    } else if has_prefix(s, from) {
        to + replace_all(s.skip(from.len() as int), from, to)
    } else {
        seq![s[0]] + replace_all(s.skip(1), from, to)
    }
}

/// Whether `pat` occurs in `s` at character position `i`.
pub fn matches_at(s: &str, i: usize, pat: &str) -> (r: bool)
    requires
        i <= s@.len(),
    ensures
        r == has_prefix(s@.skip(i as int), pat@),
{
    let n = s.unicode_len();
    let m = pat.unicode_len();
    if m > n - i {
        return false;
    }
    let mut k: usize = 0;
    while k < m
        invariant
            n == s@.len(),
            m == pat@.len(),
            i + m <= n,
            k <= m,
            s@.subrange(i as int, i + k) == pat@.subrange(0, k as int),
        decreases m - k,
    {
        if s.get_char(i + k) != pat.get_char(k) {
            assert(s@.skip(i as int).subrange(0, m as int)[k as int] != pat@[k as int]);
            return false;
        }
        assert(s@.subrange(i as int, i + k + 1) == s@.subrange(i as int, i + k).push(s@[i + k]));
        assert(pat@.subrange(0, k + 1) == pat@.subrange(0, k as int).push(pat@[k as int]));
        k = k + 1;
    }
    assert(s@.skip(i as int).subrange(0, m as int) == s@.subrange(i as int, i + m));
    assert(pat@.subrange(0, m as int) == pat@);
    true
}

/// Whether `s` begins with `pat`.
pub fn starts_with(s: &str, pat: &str) -> (r: bool)
    ensures
        r == has_prefix(s@, pat@),
{
    let r = matches_at(s, 0, pat);
    assert(s@.skip(0) == s@);
    r
}

/// `s` with every occurrence of `from` replaced by `to`.
pub fn replace(s: &str, from: &str, to: &str) -> (r: String)
    requires
        from@.len() > 0,
    ensures
        r@ == replace_all(s@, from@, to@),
{
    let n = s.unicode_len();
    let m = from.unicode_len();
    let mut res = String::new();
    let mut seg: usize = 0;
    let mut i: usize = 0;
    assert(s@.skip(0) == s@);
    assert(res@ + s@.subrange(0, 0) == Seq::<char>::empty());
    while i < n
        invariant
            seg <= i <= n,
            n == s@.len(),
            m == from@.len(),
            m > 0,
            res@ + s@.subrange(seg as int, i as int) + replace_all(s@.skip(i as int), from@, to@)
                == replace_all(s@, from@, to@),
        decreases n - i,
    {
        let ghost rest = s@.skip(i as int);
        if matches_at(s, i, from) {
            assert(replace_all(rest, from@, to@) == to@ + replace_all(
                rest.skip(m as int),
                from@,
                to@,
            ));
            assert(rest.skip(m as int) == s@.skip(i + m));
            let piece = s.substring_char(seg, i);
            res.append(piece);
            res.append(to);
            i = i + m;
            seg = i;
            assert(s@.subrange(seg as int, i as int) == Seq::<char>::empty());
        } else {
            assert(replace_all(rest, from@, to@) == seq![rest[0]] + replace_all(
                rest.skip(1),
                from@,
                to@,
            ));
            assert(rest.skip(1) == s@.skip(i + 1));
            assert(s@.subrange(seg as int, i + 1) == s@.subrange(seg as int, i as int) + seq![
                rest[0],
            ]);
            i = i + 1;
        }
    }
    assert(s@.skip(n as int) == Seq::<char>::empty());
    let piece = s.substring_char(seg, n);
    res.append(piece);
    res
}

/// `p` holds no `h`.
pub open spec fn free_of_h(p: Seq<char>) -> bool {
    forall|i: int| 0 <= i < p.len() ==> p[i] != 'h'
}

/// Upgrading `http://` to `https://`.
pub open spec fn upgrade(s: Seq<char>) -> Seq<char> {
    replace_all(s, "http://"@, "https://"@)
}

/// A sequence that does not begin with `h` passes its first character
/// through the upgrade unchanged.
proof fn lemma_plain_head(x: Seq<char>)
    requires
        x.len() > 0,
        x[0] != 'h',
    ensures
        upgrade(x) == seq![x[0]] + upgrade(x.skip(1)),
{
    reveal_strlit("http://");
    assert(!has_prefix(x, "http://"@)) by {
        if has_prefix(x, "http://"@) {
            assert(x.subrange(0, 7)[0] == x[0]);
        }
    }
}

/// A prefix without `h` passes through the upgrade unchanged.
proof fn lemma_free_prefix(p: Seq<char>, y: Seq<char>)
    requires
        free_of_h(p),
    ensures
        upgrade(p + y) == p + upgrade(y),
    decreases p.len(),
{
    if p.len() > 0 {
        let x = p + y;
        assert(x[0] == p[0]);
        lemma_plain_head(x);
        assert(x.skip(1) == p.skip(1) + y);
        lemma_free_prefix(p.skip(1), y);
        assert(p == seq![p[0]] + p.skip(1));
    } else {
        assert(p + y == y);
    }
}

/// An upgraded sequence that begins with something without `h` began with
/// it before the upgrade.
proof fn lemma_free_prefix_back(x: Seq<char>, q: Seq<char>)
    requires
        free_of_h(q),
        has_prefix(upgrade(x), q),
    ensures
        has_prefix(x, q),
    decreases x.len(),
{
    reveal_strlit("http://");
    reveal_strlit("https://");
    if q.len() == 0 {
        assert(x.subrange(0, 0) == q);
    } else if x.len() == 0 {
    } else if has_prefix(x, "http://"@) {
        assert(upgrade(x)[0] == 'h');
        assert(upgrade(x).subrange(0, q.len() as int)[0] == q[0]);
    } else {
        let ux = upgrade(x);
        assert(ux == seq![x[0]] + upgrade(x.skip(1)));
        assert(ux.subrange(0, q.len() as int)[0] == q[0]);
        assert(upgrade(x.skip(1)).subrange(0, q.len() - 1) == q.skip(1)) by {
            assert forall|i: int| 0 <= i < q.len() - 1 implies upgrade(x.skip(1)).subrange(
                0,
                q.len() - 1,
            )[i] == q.skip(1)[i] by {
                assert(ux.subrange(0, q.len() as int)[i + 1] == q[i + 1]);
            }
        }
        lemma_free_prefix_back(x.skip(1), q.skip(1));
        assert forall|i: int| 0 <= i < q.len() implies x.subrange(0, q.len() as int)[i] == q[i] by {
            if i > 0 {
                assert(x.skip(1).subrange(0, q.len() - 1)[i - 1] == q.skip(1)[i - 1]);
            }
        }
        assert(x.subrange(0, q.len() as int) =~= q);
    }
}

/// Upgrading twice is upgrading once.
pub proof fn lemma_upgrade_idempotent(s: Seq<char>)
    ensures
        upgrade(upgrade(s)) == upgrade(s),
    decreases s.len(),
{
    reveal_strlit("http://");
    reveal_strlit("https://");
    let to = "https://"@;
    if s.len() == 0 {
    } else if has_prefix(s, "http://"@) {
        let rest = upgrade(s.skip(7));
        lemma_upgrade_idempotent(s.skip(7));
        // "https://" is not "http://" at its start, and holds no other `h`
        let x = to + rest;
        assert(!has_prefix(x, "http://"@)) by {
            assert(x.subrange(0, 7)[4] == 's');
        }
        assert(x.skip(1) == to.skip(1) + rest);
        assert(free_of_h(to.skip(1)));
        lemma_free_prefix(to.skip(1), rest);
        assert(to == seq![to[0]] + to.skip(1));
    } else {
        let tail = upgrade(s.skip(1));
        lemma_upgrade_idempotent(s.skip(1));
        let x = seq![s[0]] + tail;
        assert(x.skip(1) == tail);
        if s[0] != 'h' {
            lemma_plain_head(x);
        } else {
            assert(!has_prefix(x, "http://"@)) by {
                if has_prefix(x, "http://"@) {
                    let q = "http://"@.skip(1);
                    assert(free_of_h(q));
                    assert(tail.subrange(0, 6) =~= q) by {
                        assert forall|i: int| 0 <= i < 6 implies tail.subrange(0, 6)[i] == q[i] by {
                            assert(x.subrange(0, 7)[i + 1] == "http://"@[i + 1]);
                        }
                    }
                    lemma_free_prefix_back(s.skip(1), q);
                    assert(s.subrange(0, 7) =~= "http://"@) by {
                        assert forall|i: int| 0 <= i < 7 implies s.subrange(0, 7)[i] == "http://"@[i] by {
                            if i > 0 {
                                assert(s.skip(1).subrange(0, 6)[i - 1] == q[i - 1]);
                            }
                        }
                    }
                }
            }
        }
    }
}

/// An upgraded sequence still begins with `http` if the original did.
pub proof fn lemma_upgrade_keeps_http(u: Seq<char>)
    requires
        has_prefix(u, "http"@),
    ensures
        has_prefix(upgrade(u), "http"@),
{
    reveal_strlit("http");
    reveal_strlit("http://");
    reveal_strlit("https://");
    if has_prefix(u, "http://"@) {
        let r = upgrade(u);
        assert(r == "https://"@ + upgrade(u.skip(7)));
        assert(r.subrange(0, 4) =~= "http"@);
    } else {
        let rest = u.skip(4);
        let ttp = seq!['t', 't', 'p'];
        assert(u.skip(1) == ttp + rest) by {
            assert(u.subrange(0, 4)[1] == 't');
            assert(u.subrange(0, 4)[2] == 't');
            assert(u.subrange(0, 4)[3] == 'p');
        }
        assert(u.subrange(0, 4)[0] == 'h');
        assert(free_of_h(ttp));
        lemma_free_prefix(ttp, rest);
        let r = upgrade(u);
        assert(r == seq!['h'] + upgrade(u.skip(1)));
        assert(r.subrange(0, 4) =~= "http"@);
    }
}

/// The character of the decimal digit `d`.
pub open spec fn digit_char(d: nat) -> char {
    (48 + d) as char
}

/// The decimal digits of `n`, most significant first, without leading zeros.
pub open spec fn decimal(n: nat) -> Seq<char>
    decreases n,
{
    if n < 10 {
        seq![digit_char(n)]
    } else {
        decimal(n / 10).push(digit_char(n % 10))
    }
}

/// The decimal form of `n`, with a leading `-` when negative.
pub open spec fn signed_decimal(n: int) -> Seq<char> {
    if n < 0 {
        seq!['-'] + decimal((-n) as nat)
    } else {
        decimal(n as nat)
    }
}

/// The one-character string of the decimal digit `d`.
fn digit_str(d: u8) -> (r: &'static str)
    requires
        d < 10,
    ensures
        r@ == seq![digit_char(d as nat)],
{
    proof {
        reveal_strlit("0");
        reveal_strlit("1");
        reveal_strlit("2");
        reveal_strlit("3");
        reveal_strlit("4");
        reveal_strlit("5");
        reveal_strlit("6");
        reveal_strlit("7");
        reveal_strlit("8");
        reveal_strlit("9");
    }
    let r = match d {
        0 => "0",
        1 => "1",
        2 => "2",
        3 => "3",
        4 => "4",
        5 => "5",
        6 => "6",
        7 => "7",
        8 => "8",
        _ => "9",
    };
    assert(r@ =~= seq![digit_char(d as nat)]);
    r
}

/// Appends the decimal digits of `n` to `res`.
pub fn push_decimal(res: &mut String, n: u128)
    ensures
        final(res)@ == old(res)@ + decimal(n as nat),
    decreases n,
{
    if n >= 10 {
        push_decimal(res, n / 10);
    }
    let d = (n % 10) as u8;
    res.append(digit_str(d));
    assert(n < 10 ==> n % 10 == n);
}

/// Appends the decimal form of `n` to `res`, with `-` when negative.
pub fn push_signed_decimal(res: &mut String, n: i64)
    ensures
        final(res)@ == old(res)@ + signed_decimal(n as int),
{
    if n < 0 {
        proof {
            reveal_strlit("-");
        }
        res.append("-");
        let magnitude = (-(n as i128)) as u128;
        push_decimal(res, magnitude);
    } else {
        push_decimal(res, n as u128);
    }
}

/// The number that a sequence of decimal digits stands for, most
/// significant first.
pub open spec fn digits_value(s: Seq<char>) -> int
    decreases s.len(),
{
    if s.len() == 0 {
        0
    } else {
        digits_value(s.drop_last()) * 10 + ((s.last() as u32) as int - 48)
    }
}

/// The decimal form of a number is made of digits, has no leading zero, and
/// reads back as the number.
pub proof fn lemma_decimal_reads_back(n: nat)
    ensures
        digits_value(decimal(n)) == n,
        decimal(n).len() >= 1,
        forall|i: int| 0 <= i < decimal(n).len() ==> '0' <= #[trigger] decimal(n)[i] <= '9',
        n > 0 ==> decimal(n)[0] != '0',
    decreases n,
{
    if n < 10 {
        assert(decimal(n).drop_last() =~= Seq::<char>::empty());
        assert(digits_value(Seq::<char>::empty()) == 0);
        assert((digit_char(n) as u32) == 48 + n);
    } else {
        lemma_decimal_reads_back(n / 10);
        let d = decimal(n / 10);
        assert(decimal(n).drop_last() =~= d);
        assert(n == (n / 10) * 10 + n % 10);
        assert((digit_char(n % 10) as u32) == 48 + n % 10);
        assert forall|i: int| 0 <= i < decimal(n).len() implies '0' <= #[trigger] decimal(n)[i]
            <= '9' by {
            if i < d.len() {
                assert(decimal(n)[i] == d[i]);
            }
        }
        assert(decimal(n)[0] == d[0]);
    }
}

/// `p` occurs in `s` at position `i`.
pub open spec fn occurs_at(s: Seq<char>, p: Seq<char>, i: int) -> bool {
    0 <= i && i + p.len() <= s.len() && s.subrange(i, i + p.len()) == p
}

/// A sequence in which `http://` does not occur comes out of the upgrade
/// unchanged.
pub proof fn lemma_upgrade_without_http(s: Seq<char>)
    requires
        forall|i: int| !occurs_at(s, "http://"@, i),
    ensures
        upgrade(s) == s,
    decreases s.len(),
{
    reveal_strlit("http://");
    let h = "http://"@;
    if s.len() > 0 {
        assert(!has_prefix(s, h)) by {
            assert(!occurs_at(s, h, 0));
        }
        let t = s.skip(1);
        assert forall|i: int| !occurs_at(t, h, i) by {
            if occurs_at(t, h, i) {
                assert(s.subrange(i + 1, i + 8) =~= t.subrange(i, i + 7));
                assert(occurs_at(s, h, i + 1));
            }
        }
        lemma_upgrade_without_http(t);
        assert(s =~= seq![s[0]] + t);
    }
}

/// No `http://` is left after the upgrade.
pub proof fn lemma_upgrade_leaves_no_http(s: Seq<char>)
    ensures
        forall|i: int| !occurs_at(upgrade(s), "http://"@, i),
    decreases s.len(),
{
    reveal_strlit("http://");
    reveal_strlit("https://");
    let h = "http://"@;
    let to = "https://"@;
    if s.len() == 0 {
    } else if has_prefix(s, h) {
        let rest = upgrade(s.skip(7));
        lemma_upgrade_leaves_no_http(s.skip(7));
        let x = to + rest;
        assert(upgrade(s) == x);
        assert(free_of_h(to.skip(1)));
        assert forall|i: int| !occurs_at(x, h, i) by {
            if occurs_at(x, h, i) {
                if i == 0 {
                    assert(x.subrange(0, 7)[4] == h[4]);
                } else if i < 8 {
                    assert(x.subrange(i, i + 7)[0] == h[0]);
                    assert(x[i] == to.skip(1)[i - 1]);
                } else {
                    assert(rest.subrange(i - 8, i - 1) =~= x.subrange(i, i + 7));
                    assert(occurs_at(rest, h, i - 8));
                }
            }
        }
    } else {
        let tail = upgrade(s.skip(1));
        lemma_upgrade_leaves_no_http(s.skip(1));
        let x = seq![s[0]] + tail;
        assert(upgrade(s) == x);
        assert forall|i: int| !occurs_at(x, h, i) by {
            if occurs_at(x, h, i) {
                if i == 0 {
                    let q = h.skip(1);
                    assert(free_of_h(q));
                    assert(tail.subrange(0, 6) =~= q) by {
                        assert forall|j: int| 0 <= j < 6 implies tail.subrange(0, 6)[j] == q[j] by {
                            assert(x.subrange(0, 7)[j + 1] == h[j + 1]);
                        }
                    }
                    lemma_free_prefix_back(s.skip(1), q);
                    assert(s.subrange(0, 7) =~= h) by {
                        assert forall|j: int| 0 <= j < 7 implies s.subrange(0, 7)[j] == h[j] by {
                            if j > 0 {
                                assert(s.skip(1).subrange(0, 6)[j - 1] == q[j - 1]);
                            } else {
                                assert(x.subrange(0, 7)[0] == h[0]);
                            }
                        }
                    }
                } else {
                    assert(tail.subrange(i - 1, i + 6) =~= x.subrange(i, i + 7));
                    assert(occurs_at(tail, h, i - 1));
                }
            }
        }
    }
}

} // verus!
