use vstd::prelude::*;

verus! {

/// The ASCII digit for `d` in base 16 (lower case), `d < 16`.
pub open spec fn digit_char(d: nat) -> char {
    if d < 10 {
        ((d + 48) as u8) as char
    } else {
        ((d + 87) as u8) as char
    }
}

/// Decimal rendering of `n` without sign or leading zeros (`"0"` for zero).
pub open spec fn decimal(n: nat) -> Seq<char>
    decreases n,
{
    if n < 10 {
        seq![digit_char(n)]
    } else {
        decimal(n / 10) + seq![digit_char(n % 10)]
    }
}

/// The lowest `width` hexadecimal digits of `n`, most significant first.
pub open spec fn hex_digits(n: nat, width: nat) -> Seq<char>
    decreases width,
{
    if width == 0 {
        Seq::empty()
    } else {
        hex_digits(n / 16, (width - 1) as nat) + seq![digit_char(n % 16)]
    }
}

fn digit_str(d: u8) -> (s: &'static str)
    requires
        d < 16,
    ensures
        s@ == seq![digit_char(d as nat)],
{
    proof {
        reveal_strlit("0");
        reveal_strlit("1");
        reveal_strlit("2");
        reveal_strlit("3");
        reveal_strlit("4");
        reveal_strlit("5");
        reveal_strlit("6");
        reveal_strlit("7");
        reveal_strlit("8");
        reveal_strlit("9");
        reveal_strlit("a");
        reveal_strlit("b");
        reveal_strlit("c");
        reveal_strlit("d");
        reveal_strlit("e");
        reveal_strlit("f");
    }
    match d {
        0 => "0",
        1 => "1",
        2 => "2",
        3 => "3",
        4 => "4",
        5 => "5",
        6 => "6",
        7 => "7",
        8 => "8",
        9 => "9",
        10 => "a",
        11 => "b",
        12 => "c",
        13 => "d",
        14 => "e",
        _ => "f",
    }
}

proof fn lemma_decimal_split(n: nat)
    requires
        n >= 10,
    ensures
        decimal(n) == decimal(n / 10) + seq![digit_char(n % 10)],
{
}

/// Appends the decimal rendering of `n` to `line`.
pub fn push_decimal(line: &mut String, n: u128)
    ensures
        final(line)@ == old(line)@ + decimal(n as nat),
{
    // Collect digits least significant first.
    let mut digits: Vec<u8> = Vec::new();
    let mut rest: u128 = n;
    let ghost mut tail: Seq<char> = Seq::empty();
    while rest >= 10
        invariant
            decimal(n as nat) == decimal(rest as nat) + tail,
            digits@.len() == tail.len(),
            forall|i: int| 0 <= i < digits@.len() ==> #[trigger] digits@[i] < 10,
            forall|i: int|
                0 <= i < digits@.len() ==> tail[tail.len() - 1 - i] == digit_char(
                    #[trigger] digits@[i] as nat,
                ),
        decreases rest,
    {
        let d: u8 = (rest % 10) as u8;
        proof {
            lemma_decimal_split(rest as nat);
            assert(decimal(n as nat) == decimal((rest / 10) as nat) + (seq![digit_char(d as nat)]
                + tail));
        }
        digits.push(d);
        proof {
            tail = seq![digit_char(d as nat)] + tail;
        }
        rest = rest / 10;
    }
    let first: u8 = rest as u8;
    line.append(digit_str(first));
    let ghost start = old(line)@ + decimal(rest as nat);
    assert(line@ == start);
    let mut i: usize = digits.len();
    while i > 0
        invariant
            i <= digits@.len(),
            digits@.len() == tail.len(),
            forall|k: int| 0 <= k < digits@.len() ==> #[trigger] digits@[k] < 10,
            forall|k: int|
                0 <= k < digits@.len() ==> tail[tail.len() - 1 - k] == digit_char(
                    #[trigger] digits@[k] as nat,
                ),
            line@ == start + tail.subrange(0, (digits@.len() - i) as int),
        decreases i,
    {
        i = i - 1;
        let d = digits[i];
        line.append(digit_str(d));
        assert(tail.subrange(0, (digits@.len() - i) as int) == tail.subrange(
            0,
            (digits@.len() - i - 1) as int,
        ) + seq![digit_char(d as nat)]);
    }
    assert(tail.subrange(0, tail.len() as int) == tail);
}

/// Appends exactly `width` lower-case hexadecimal digits of `n` (zero padded).
pub fn push_hex_padded(line: &mut String, n: u64, width: usize)
    requires
        width <= 16,
    ensures
        final(line)@ == old(line)@ + hex_digits(n as nat, width as nat),
    decreases width,
{
    if width == 0 {
        assert(old(line)@ + hex_digits(n as nat, 0) == old(line)@);
        return;
    }
    push_hex_padded(line, n / 16, width - 1);
    let d: u8 = (n % 16) as u8;
    line.append(digit_str(d));
}

/// Appends a string slice.
pub fn push_str(line: &mut String, piece: &str)
    ensures
        final(line)@ == old(line)@ + piece@,
{
    line.append(piece);
}

/// Whether two string slices hold the same characters.
pub fn str_equals(left: &str, right: &str) -> (r: bool)
    ensures
        r == (left@ == right@),
{
    let n = left.unicode_len();
    if n != right.unicode_len() {
        return false;
    }
    let mut i: usize = 0;
    while i < n
        invariant
            n == left@.len(),
            n == right@.len(),
            i <= n,
            forall|k: int| 0 <= k < i ==> left@[k] == right@[k],
        decreases n - i,
    {
        if left.get_char(i) != right.get_char(i) {
            return false;
        }
        i = i + 1;
    }
    assert(left@ =~= right@);
    true
}


/// ` name=value` for each name and value, in order.
pub open spec fn fields_text(names: Seq<Seq<char>>, values: Seq<u128>) -> Seq<char>
    decreases names.len(),
{
    if names.len() == 0 || values.len() == 0 {
        Seq::empty()
    } else {
        fields_text(names.drop_last(), values.drop_last()) + " "@ + names.last() + "="@ + decimal(
            values.last() as nat,
        )
    }
}

/// The views of a list of string slices.
pub open spec fn str_views(names: Seq<&str>) -> Seq<Seq<char>> {
    names.map_values(|n: &str| n@)
}

/// Appends ` name=value` for every pair of `names` and `values`.
pub fn push_fields(line: &mut String, names: &[&str], values: &[u128])
    requires
        names@.len() == values@.len(),
    ensures
        final(line)@ == old(line)@ + fields_text(str_views(names@), values@),
{
    let ghost ns = str_views(names@);
    let ghost start = line@;
    let mut i: usize = 0;
    while i < names.len()
        invariant
            i <= names@.len(),
            names@.len() == values@.len(),
            ns == str_views(names@),
            line@ == start + fields_text(ns.take(i as int), values@.take(i as int)),
        decreases names@.len() - i,
    {
        proof {
            assert(ns.take(i + 1).drop_last() =~= ns.take(i as int));
            assert(values@.take(i + 1).drop_last() =~= values@.take(i as int));
        }
        push_str(line, " ");
        push_str(line, names[i]);
        push_str(line, "=");
        push_decimal(line, values[i]);
        i = i + 1;
    }
    proof {
        assert(ns.take(names@.len() as int) =~= ns);
        assert(values@.take(names@.len() as int) =~= values@);
    }
}

} // verus!
