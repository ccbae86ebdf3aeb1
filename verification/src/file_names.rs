//! The names under which public parameters and compression keys are cached.
//!
//! A name is a pure function of what it stands for: the kind of parameters and
//! the size `k` for parameters, `k` alone for a key. No two of them collide.

use crate::scheme::NovaImpl;
use vstd::prelude::*;
use vstd::string::StringExecFns;

verus! {

/// The character of a decimal digit.
pub open spec fn digit_char(d: nat) -> char {
    if d == 0 {
        '0'
    } else if d == 1 {
        '1'
    } else if d == 2 {
        '2'
    } else if d == 3 {
        '3'
    } else if d == 4 {
        '4'
    } else if d == 5 {
        '5'
    } else if d == 6 {
        '6'
    } else if d == 7 {
        '7'
    } else if d == 8 {
        '8'
    } else {
        '9'
    }
}

/// Whether a character is a decimal digit.
pub open spec fn is_digit(c: char) -> bool {
    exists|d: nat| d < 10 && c == #[trigger] digit_char(d)
}

/// A number in decimal, most significant digit first, without leading zeros.
pub open spec fn decimal(n: nat) -> Seq<char>
    decreases n,
{
    if n < 10 {
        seq![digit_char(n)]
    } else {
        decimal(n / 10).push(digit_char(n % 10))
    }
}

/// What every parameter file's name begins with.
pub open spec fn params_prefix() -> Seq<char> {
    "nexus-public-"@
}

/// What every key file's name begins with.
pub open spec fn key_prefix() -> Seq<char> {
    "nexus-spartan-key-"@
}

/// What every cached file's name ends with.
pub open spec fn suffix() -> Seq<char> {
    ".zst"@
}

/// The name of the file that caches the public parameters of one kind and size.
pub open spec fn params_file_name(nova_impl: NovaImpl, k: nat) -> Seq<char> {
    params_prefix() + nova_impl.tag() + seq!['-'] + decimal(k) + suffix()
}

/// The name of the file that caches the compression key of one size.
pub open spec fn key_file_name(k: nat) -> Seq<char> {
    key_prefix() + decimal(k) + suffix()
}

/// Different digits have different characters.
proof fn lemma_digit_char_injective(a: nat, b: nat)
    requires
        a < 10,
        b < 10,
        digit_char(a) == digit_char(b),
    ensures
        a == b,
{
}

/// A number in decimal is never empty, and has two digits or more from ten on.
proof fn lemma_decimal_len(n: nat)
    ensures
        decimal(n).len() >= 1,
        n >= 10 ==> decimal(n).len() >= 2,
    decreases n,
{
    if n >= 10 {
        lemma_decimal_len(n / 10);
    }
}

/// A number in decimal holds digits only.
proof fn lemma_decimal_digits(n: nat, i: int)
    requires
        0 <= i < decimal(n).len(),
    ensures
        is_digit(decimal(n)[i]),
    decreases n,
{
    if n < 10 {
        assert(decimal(n)[i] == digit_char(n));
    } else {
        if i < decimal(n / 10).len() {
            lemma_decimal_digits(n / 10, i);
            assert(decimal(n)[i] == decimal(n / 10)[i]);
        } else {
            assert(decimal(n)[i] == digit_char(n % 10));
        }
    }
}

/// Two numbers with the same decimal form are the same number.
pub proof fn lemma_decimal_injective(a: nat, b: nat)
    requires
        decimal(a) == decimal(b),
    ensures
        a == b,
    decreases a,
{
    lemma_decimal_len(a);
    lemma_decimal_len(b);
    if a < 10 || b < 10 {
        assert(a < 10 && b < 10);
        assert(decimal(a)[0] == digit_char(a));
        assert(decimal(b)[0] == digit_char(b));
        lemma_digit_char_injective(a, b);
    } else {
        let da = decimal(a / 10);
        let db = decimal(b / 10);
        assert(decimal(a) == da.push(digit_char(a % 10)));
        assert(decimal(b) == db.push(digit_char(b % 10)));
        assert(da.len() == db.len());
        assert(da =~= decimal(a).drop_last());
        assert(db =~= decimal(b).drop_last());
        assert(decimal(a).last() == digit_char(a % 10));
        assert(decimal(b).last() == digit_char(b % 10));
        lemma_digit_char_injective(a % 10, b % 10);
        lemma_decimal_injective(a / 10, b / 10);
    }
}

/// What stands between the same beginning and the same end is the same.
proof fn lemma_middle_is_determined(head: Seq<char>, a: Seq<char>, b: Seq<char>, tail: Seq<char>)
    requires
        head + a + tail == head + b + tail,
    ensures
        a == b,
{
    let left = head + a + tail;
    let right = head + b + tail;
    assert(left.len() == head.len() + a.len() + tail.len());
    assert(right.len() == head.len() + b.len() + tail.len());
    assert(a.len() == b.len());
    assert forall|i: int| 0 <= i < a.len() implies a[i] == b[i] by {
        assert(left[head.len() + i] == a[i]);
        assert(right[head.len() + i] == b[i]);
    }
    assert(a =~= b);
}

/// Parameter files never collide: the same name stands for the same kind of
/// parameters and the same size.
pub proof fn law_params_names_do_not_collide(a: NovaImpl, ka: nat, b: NovaImpl, kb: nat)
    requires
        params_file_name(a, ka) == params_file_name(b, kb),
    ensures
        a == b,
        ka == kb,
{
    reveal_strlit("nexus-public-");
    reveal_strlit(".zst");
    let name_a = params_file_name(a, ka);
    let name_b = params_file_name(b, kb);
    lemma_decimal_len(ka);
    lemma_decimal_len(kb);
    assert(params_prefix().len() == 13);
    assert(name_a[13] == a.tag()[0]);
    assert(name_b[13] == b.tag()[0]);
    if a != b {
        // Neither is sequential, so one is the plain and one the compressible
        // parallel kind: where the one has its first digit, the other has a letter.
        let (plain, k) = if a == NovaImpl::Parallel {
            (name_a, ka)
        } else {
            (name_b, kb)
        };
        let other = if a == NovaImpl::Parallel {
            name_b
        } else {
            name_a
        };
        assert(plain[17] == decimal(k)[0]);
        assert(other[17] == 'c');
        lemma_decimal_digits(k, 0);
        assert(false);
    }
    let head = params_prefix() + a.tag() + seq!['-'];
    assert(name_a == head + decimal(ka) + suffix());
    assert(name_b == head + decimal(kb) + suffix());
    lemma_middle_is_determined(head, decimal(ka), decimal(kb), suffix());
    lemma_decimal_injective(ka, kb);
}

/// Key files never collide: the same name stands for the same size.
pub proof fn law_key_names_do_not_collide(ka: nat, kb: nat)
    requires
        key_file_name(ka) == key_file_name(kb),
    ensures
        ka == kb,
{
    lemma_middle_is_determined(key_prefix(), decimal(ka), decimal(kb), suffix());
    lemma_decimal_injective(ka, kb);
}

/// A key file never has the name of a parameter file.
pub proof fn law_key_and_params_names_differ(nova_impl: NovaImpl, k: nat, key_k: nat)
    ensures
        params_file_name(nova_impl, k) != key_file_name(key_k),
{
    reveal_strlit("nexus-public-");
    reveal_strlit("nexus-spartan-key-");
    assert(params_file_name(nova_impl, k)[6] == 'p');
    assert(key_file_name(key_k)[6] == 's');
}

/// One decimal digit as a string.
fn digit_str(d: usize) -> (s: &'static str)
    requires
        d < 10,
    ensures
        s@ == seq![digit_char(d as nat)],
{
    proof {
        reveal_strlit("0");
        reveal_strlit("1");
        reveal_strlit("2");
        reveal_strlit("3");
        reveal_strlit("4");
        reveal_strlit("5");
        reveal_strlit("6");
        reveal_strlit("7");
        reveal_strlit("8");
        reveal_strlit("9");
    }
    let s = if d == 0 {
        "0"
    } else if d == 1 {
        "1"
    } else if d == 2 {
        "2"
    } else if d == 3 {
        "3"
    } else if d == 4 {
        "4"
    } else if d == 5 {
        "5"
    } else if d == 6 {
        "6"
    } else if d == 7 {
        "7"
    } else if d == 8 {
        "8"
    } else {
        "9"
    };
    assert(s@ =~= seq![digit_char(d as nat)]);
    s
}

/// Appends a number in decimal to a string.
fn append_decimal(text: &mut String, n: usize)
    ensures
        final(text)@ == old(text)@ + decimal(n as nat),
    decreases n,
{
    if n >= 10 {
        append_decimal(text, n / 10);
    }
    text.append(digit_str(n % 10));
    assert(final(text)@ =~= old(text)@ + decimal(n as nat));
}

/// The name of the file that caches the public parameters of one kind and size.
pub fn format_params_file(nova_impl: NovaImpl, k: usize) -> (name: String)
    ensures
        name@ == params_file_name(nova_impl, k as nat),
{
    let mut name = String::from_str("nexus-public-");
    name.append(nova_impl.tag_str());
    name.append("-");
    append_decimal(&mut name, k);
    name.append(".zst");
    proof {
        reveal_strlit("-");
        assert("-"@ =~= seq!['-']);
    }
    name
}

/// The name of the file that caches the compression key of one size.
pub fn format_key_file(k: usize) -> (name: String)
    ensures
        name@ == key_file_name(k as nat),
{
    let mut name = String::from_str("nexus-spartan-key-");
    append_decimal(&mut name, k);
    name.append(".zst");
    name
}

} // verus!
