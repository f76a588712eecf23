//! The colour rule and the screen-clearing command.

use vstd::prelude::*;

use crate::command::clear_spec;
use crate::text::{
    append_char, chars_of, is_white_space_spec, string_of, trim, trim_end_spec, trim_spec,
    trim_start_spec, utf8_width, utf8_width_spec,
};

verus! {

/// The colour of a percentage given in hundredths of one (so `71` stands
/// for 0.71): yellow strictly between 0.70 and 0.89, red above 0.90, and
/// green otherwise (0.89 and 0.90 included).
pub open spec fn color_spec(hundredths: int) -> char {
    if 70 < hundredths && hundredths < 89 {
        'y'
    } else if hundredths > 90 {
        'r'
    } else {
        'g'
    }
}

/// The colour in which a percentage is drawn.
pub fn get_color(hundredths: i64) -> (color: char)
    ensures
        color == color_spec(hundredths as int),
{
    let mut color: char = 'g';
    if hundredths > 70 && hundredths < 89 {
        color = 'y';
    } else if hundredths > 90 {
        color = 'r';
    }
    color
}

/// The command that clears the screen.
pub fn clear() -> (cmd: String)
    ensures
        cmd@ == clear_spec(),
{
    let mut cmd = String::new();
    append_char(&mut cmd, 'c');
    append_char(&mut cmd, '\n');
    assert(cmd@ =~= clear_spec());
    cmd
}


/// The characters of `s` before its first newline (all of `s` when it has none).
pub open spec fn before_newline(s: Seq<char>) -> Seq<char>
    decreases s.len(),
{
    if s.len() == 0 {
        s
    } else if s[0] == '\n' {
        Seq::empty()
    } else {
        seq![s[0]] + before_newline(s.drop_first())
    }
}

/// The characters of `s` after its first newline, or `None` when it has none.
pub open spec fn after_newline(s: Seq<char>) -> Option<Seq<char>>
    decreases s.len(),
{
    if s.len() == 0 {
        None
    } else if s[0] == '\n' {
        Some(s.drop_first())
    } else {
        after_newline(s.drop_first())
    }
}

/// The second of the newline-separated pieces of `s`, or `None` when `s`
/// has no newline (and so only one piece).
pub open spec fn second_line_spec(s: Seq<char>) -> Option<Seq<char>> {
    match after_newline(s) {
        None => None,
        Some(rest) => Some(before_newline(rest)),
    }
}

/// `s` with every `%` removed.
pub open spec fn without_percent_sign(s: Seq<char>) -> Seq<char> {
    s.filter(|c: char| c != '%')
}

proof fn lemma_without_percent_sign_push(s: Seq<char>, c: char)
    ensures
        without_percent_sign(s.push(c)) == if c != '%' {
            without_percent_sign(s).push(c)
        } else {
            without_percent_sign(s)
        },
{
    reveal_with_fuel(Seq::filter, 1);
    let t = s.push(c);
    assert(t.drop_last() =~= s);
    assert(t.last() == c);
}

/// A field of a single one-byte character gets a leading `0`.
pub open spec fn pad_spec(p: Seq<char>) -> Seq<char> {
    if p.len() == 1 && utf8_width_spec(p[0]) == 1 {
        seq!['0'] + p
    } else {
        p
    }
}

/// The usage field of `df --output=pcent` output: the second line with the
/// `%` signs and surrounding white space removed, padded to two bytes;
/// `00` when the output has a single line.
pub open spec fn percent_field_spec(s: Seq<char>) -> Seq<char> {
    match second_line_spec(s) {
        None => seq!['0', '0'],
        Some(line) => pad_spec(trim_spec(without_percent_sign(line))),
    }
}

/// Where the decimal point goes in `p`, as a character index: two bytes
/// before the end. `None` when `p` is empty or that byte offset falls
/// inside a character, the inputs on which the insertion cannot be made.
pub open spec fn point_position_spec(p: Seq<char>) -> Option<int> {
    if p.len() == 0 {
        None
    } else if utf8_width_spec(p.last()) == 2 {
        Some(p.len() - 1)
    } else if utf8_width_spec(p.last()) == 1 && p.len() >= 2 && utf8_width_spec(p[p.len() - 2])
        == 1 {
        Some(p.len() - 2)
    } else {
        None
    }
}

/// The usage of a partition as decimal text (a fraction of one, such as
/// `0.42` for a field of `42`), read from the output of `df --output=pcent`:
/// the percent field with a point two bytes before its end, and a `0` in
/// front when the text would start with the point. `None` on the outputs
/// whose field admits no such point.
pub open spec fn usage_text_spec(s: Seq<char>) -> Option<Seq<char>> {
    let p = percent_field_spec(s);
    match point_position_spec(p) {
        None => None,
        Some(k) => {
            let q = p.take(k) + seq!['.'] + p.skip(k);
            Some(if q[0] == '.' { seq!['0'] + q } else { q })
        },
    }
}

/// The second newline-separated piece of `v`, if `v` has a newline.
fn second_line(v: &Vec<char>) -> (line: Option<Vec<char>>)
    ensures
        match line {
            None => second_line_spec(v@) is None,
            Some(l) => second_line_spec(v@) == Some(l@),
        },
{
    let n: usize = v.len();
    let mut i: usize = 0;
    assert(v@.subrange(0, n as int) =~= v@);
    while i < n && v[i] != '\n'
        invariant
            n == v@.len(),
            i <= n,
            after_newline(v@) == after_newline(v@.subrange(i as int, n as int)),
        decreases n - i,
    {
        assert(v@.subrange(i as int, n as int).drop_first() =~= v@.subrange(i + 1, n as int));
        i = i + 1;
    }
    if i == n {
        return None;
    }
    let start: usize = i + 1;
    assert(v@.subrange(i as int, n as int).drop_first() =~= v@.subrange(start as int, n as int));
    let mut j: usize = start;
    let mut line: Vec<char> = Vec::new();
    while j < n && v[j] != '\n'
        invariant
            n == v@.len(),
            start <= j <= n,
            line@ == v@.subrange(start as int, j as int),
            before_newline(v@.subrange(start as int, n as int)) == line@ + before_newline(
                v@.subrange(j as int, n as int),
            ),
        decreases n - j,
    {
        assert(v@.subrange(j as int, n as int).drop_first() =~= v@.subrange(j + 1, n as int));
        line.push(v[j]);
        j = j + 1;
        assert(line@ =~= v@.subrange(start as int, j as int));
        assert(line@ =~= v@.subrange(start as int, j - 1) + seq![v@[j - 1]]);
    }
    assert(before_newline(v@.subrange(j as int, n as int)) =~= Seq::<char>::empty());
    assert(line@ + Seq::<char>::empty() =~= line@);
    Some(line)
}

/// `v` with every `%` removed.
fn remove_percent_signs(v: &Vec<char>) -> (w: Vec<char>)
    ensures
        w@ == without_percent_sign(v@),
{
    let mut w: Vec<char> = Vec::new();
    let mut i: usize = 0;
    while i < v.len()
        invariant
            i <= v.len(),
            w@ == without_percent_sign(v@.take(i as int)),
        decreases v.len() - i,
    {
        assert(v@.take(i + 1) =~= v@.take(i as int).push(v@[i as int]));
        proof {
            lemma_without_percent_sign_push(v@.take(i as int), v@[i as int]);
        }
        if v[i] != '%' {
            w.push(v[i]);
        }
        i = i + 1;
    }
    assert(v@.take(v@.len() as int) =~= v@);
    w
}

/// The usage field of `df` output (see `percent_field_spec`).
fn percent_field(v: &Vec<char>) -> (p: Vec<char>)
    ensures
        p@ == percent_field_spec(v@),
{
    match second_line(v) {
        None => {
            let mut p: Vec<char> = Vec::new();
            p.push('0');
            p.push('0');
            assert(p@ =~= seq!['0', '0']);
            p
        },
        Some(line) => {
            let t = trim(&remove_percent_signs(&line));
            if t.len() == 1 && utf8_width(t[0]) == 1 {
                let mut p: Vec<char> = Vec::new();
                p.push('0');
                p.push(t[0]);
                assert(p@ =~= seq!['0'] + t@);
                p
            } else {
                t
            }
        },
    }
}

/// Reads the usage of a partition from the output of
/// `df <path> --no-sync --output=pcent` and gives it as decimal text, a
/// fraction of one: `0.42` for a usage of 42%. Gives `None` on the outputs
/// whose usage field is empty or has no character boundary two bytes before
/// its end.
pub fn get_partition_usage(df_output: &str) -> (text: Option<String>)
    ensures
        match text {
            None => usage_text_spec(df_output@) is None,
            Some(t) => usage_text_spec(df_output@) == Some(t@),
        },
{
    let v = chars_of(df_output);
    let p = percent_field(&v);
    let n: usize = p.len();
    if n == 0 {
        return None;
    }
    let k: usize = if utf8_width(p[n - 1]) == 2 {
        n - 1
    } else if utf8_width(p[n - 1]) == 1 && n >= 2 && utf8_width(p[n - 2]) == 1 {
        n - 2
    } else {
        return None;
    };
    let ghost q = p@.take(k as int) + seq!['.'] + p@.skip(k as int);
    let lead = k == 0 || p[0] == '.';
    let ghost head: Seq<char> = if lead { seq!['0'] } else { Seq::empty() };
    let mut out: Vec<char> = Vec::new();
    if lead {
        out.push('0');
    }
    assert(out@ =~= head + p@.take(0));
    let mut i: usize = 0;
    while i < k
        invariant
            k <= n,
            n == p@.len(),
            i <= k,
            out@ == head + p@.take(i as int),
        decreases k - i,
    {
        assert(p@.take(i + 1) =~= p@.take(i as int).push(p@[i as int]));
        out.push(p[i]);
        i = i + 1;
        assert(out@ =~= head + p@.take(i as int));
    }
    out.push('.');
    assert(out@ =~= head + p@.take(k as int) + seq!['.'] + p@.subrange(k as int, i as int));
    while i < n
        invariant
            k <= i <= n,
            n == p@.len(),
            out@ == head + p@.take(k as int) + seq!['.'] + p@.subrange(k as int, i as int),
        decreases n - i,
    {
        assert(p@.subrange(k as int, i + 1) =~= p@.subrange(k as int, i as int).push(p@[i as int]));
        out.push(p[i]);
        i = i + 1;
        assert(out@ =~= head + p@.take(k as int) + seq!['.'] + p@.subrange(k as int, i as int));
    }
    assert(p@.subrange(k as int, n as int) =~= p@.skip(k as int));
    assert(q[0] == '.' <==> lead);
    assert(out@ =~= (if q[0] == '.' { seq!['0'] + q } else { q }));
    Some(string_of(&out))
}

proof fn lemma_after_newline_skips_head(head: Seq<char>, rest: Seq<char>)
    requires
        !head.contains('\n'),
    ensures
        after_newline(head + seq!['\n'] + rest) == Some(rest),
    decreases head.len(),
{
    let s = head + seq!['\n'] + rest;
    if head.len() == 0 {
        assert(s[0] == '\n');
        assert(s.drop_first() =~= rest);
    } else {
        assert(s[0] == head[0]);
        assert(!head.drop_first().contains('\n')) by {
            if head.drop_first().contains('\n') {
                let i = choose|i: int| 0 <= i < head.drop_first().len() && head.drop_first()[i] == '\n';
                assert(head[i + 1] == '\n');
            }
        }
        assert(s.drop_first() =~= head.drop_first() + seq!['\n'] + rest);
        lemma_after_newline_skips_head(head.drop_first(), rest);
    }
}

proof fn lemma_before_newline_line(line: Seq<char>, tail: Seq<char>)
    requires
        !line.contains('\n'),
    ensures
        before_newline(line + seq!['\n'] + tail) == line,
    decreases line.len(),
{
    let s = line + seq!['\n'] + tail;
    if line.len() == 0 {
        assert(s[0] == '\n');
        assert(line =~= Seq::<char>::empty());
    } else {
        assert(s[0] == line[0]);
        assert(!line.drop_first().contains('\n')) by {
            if line.drop_first().contains('\n') {
                let i = choose|i: int| 0 <= i < line.drop_first().len() && line.drop_first()[i] == '\n';
                assert(line[i + 1] == '\n');
            }
        }
        assert(s.drop_first() =~= line.drop_first() + seq!['\n'] + tail);
        lemma_before_newline_line(line.drop_first(), tail);
        assert(seq![line[0]] + line.drop_first() =~= line);
    }
}

proof fn lemma_without_percent_sign_keeps(s: Seq<char>)
    requires
        !s.contains('%'),
    ensures
        without_percent_sign(s) == s,
    decreases s.len(),
{
    if s.len() > 0 {
        let init = s.drop_last();
        assert(!init.contains('%')) by {
            if init.contains('%') {
                let i = choose|i: int| 0 <= i < init.len() && init[i] == '%';
                assert(s[i] == '%');
            }
        }
        lemma_without_percent_sign_keeps(init);
        assert(init.push(s.last()) =~= s);
        assert(s.last() == s[s.len() - 1]);
        lemma_without_percent_sign_push(init, s.last());
    }
}

proof fn lemma_trim_start_skips_spaces(pad: Seq<char>, field: Seq<char>)
    requires
        forall|i: int| 0 <= i < pad.len() ==> pad[i] == ' ',
        field.len() > 0,
        !is_white_space_spec(field[0]),
    ensures
        trim_start_spec(pad + field) == field,
    decreases pad.len(),
{
    let s = pad + field;
    if pad.len() == 0 {
        assert(s =~= field);
    } else {
        assert(s[0] == ' ');
        assert(s.drop_first() =~= pad.drop_first() + field);
        lemma_trim_start_skips_spaces(pad.drop_first(), field);
    }
}

/// An ASCII decimal digit.
pub open spec fn is_digit(c: char) -> bool {
    '0' <= c <= '9'
}

proof fn lemma_digit_field_line(head: Seq<char>, line: Seq<char>, tail: Seq<char>)
    requires
        !head.contains('\n'),
        !line.contains('\n'),
    ensures
        second_line_spec(head + seq!['\n'] + line + seq!['\n'] + tail) == Some(line),
{
    let rest = line + seq!['\n'] + tail;
    assert(head + seq!['\n'] + line + seq!['\n'] + tail =~= head + seq!['\n'] + rest);
    lemma_after_newline_skips_head(head, rest);
    lemma_before_newline_line(line, tail);
}

proof fn lemma_digit_field_no_percent(pad: Seq<char>, digits: Seq<char>)
    requires
        forall|i: int| 0 <= i < pad.len() ==> pad[i] == ' ',
        forall|i: int| 0 <= i < digits.len() ==> is_digit(#[trigger] digits[i]),
    ensures
        without_percent_sign(pad + digits + seq!['%']) == pad + digits,
{
    let kept = pad + digits;
    assert forall|i: int| 0 <= i < kept.len() implies kept[i] != '%' by {
        if i >= pad.len() {
            assert(kept[i] == digits[i - pad.len()]);
            assert(is_digit(digits[i - pad.len()]));
        }
    }
    lemma_without_percent_sign_keeps(kept);
    assert(pad + digits + seq!['%'] =~= kept.push('%'));
    lemma_without_percent_sign_push(kept, '%');
}

proof fn lemma_digits_trim_end(digits: Seq<char>)
    requires
        digits.len() >= 1,
        is_digit(digits.last()),
    ensures
        trim_end_spec(digits) == digits,
{
}

proof fn lemma_digit_field_trim(pad: Seq<char>, digits: Seq<char>)
    requires
        forall|i: int| 0 <= i < pad.len() ==> pad[i] == ' ',
        digits.len() >= 1,
        forall|i: int| 0 <= i < digits.len() ==> is_digit(#[trigger] digits[i]),
    ensures
        trim_spec(without_percent_sign(pad + digits + seq!['%'])) == digits,
{
    lemma_digit_field_no_percent(pad, digits);
    assert(is_digit(digits[0]));
    lemma_trim_start_skips_spaces(pad, digits);
    assert(is_digit(digits[digits.len() - 1]));
    lemma_digits_trim_end(digits);
}

proof fn lemma_digit_field_percent(head: Seq<char>, pad: Seq<char>, digits: Seq<char>, tail: Seq<char>)
    requires
        !head.contains('\n'),
        forall|i: int| 0 <= i < pad.len() ==> pad[i] == ' ',
        digits.len() >= 1,
        forall|i: int| 0 <= i < digits.len() ==> is_digit(#[trigger] digits[i]),
    ensures
        percent_field_spec(head + seq!['\n'] + pad + digits + seq!['%', '\n'] + tail) == pad_spec(
            digits,
        ),
{
    let line = pad + digits + seq!['%'];
    assert(!line.contains('\n')) by {
        if line.contains('\n') {
            let i = choose|i: int| 0 <= i < line.len() && line[i] == '\n';
            if i >= pad.len() && i < pad.len() + digits.len() {
                assert(is_digit(digits[i - pad.len()]));
            }
        }
    }
    assert(head + seq!['\n'] + pad + digits + seq!['%', '\n'] + tail =~= head + seq!['\n'] + line
        + seq!['\n'] + tail);
    lemma_digit_field_line(head, line, tail);
    lemma_digit_field_trim(pad, digits);
}

/// A usage field of digits is read as that many hundredths: for `df` output
/// whose second line is spaces, one or more digits and `%`, the usage text
/// is the digits with a point before the last two, written `0.0<d>` for a
/// single digit `d` and `0.<d1><d2>` for two digits; so `0%` reads `0.00`,
/// `42%` reads `0.42` and `100%` reads `1.00`.
pub proof fn usage_of_digit_field(
    head: Seq<char>,
    pad: Seq<char>,
    digits: Seq<char>,
    tail: Seq<char>,
)
    requires
        !head.contains('\n'),
        forall|i: int| 0 <= i < pad.len() ==> pad[i] == ' ',
        digits.len() >= 1,
        forall|i: int| 0 <= i < digits.len() ==> is_digit(#[trigger] digits[i]),
    ensures
        usage_text_spec(head + seq!['\n'] + pad + digits + seq!['%', '\n'] + tail) == Some(
            if digits.len() == 1 {
                seq!['0', '.', '0'] + digits
            } else if digits.len() == 2 {
                seq!['0', '.'] + digits
            } else {
                digits.take(digits.len() - 2) + seq!['.'] + digits.skip(digits.len() - 2)
            },
        ),
{
    lemma_digit_field_percent(head, pad, digits, tail);
    let p = pad_spec(digits);
    let n = digits.len();
    assert(is_digit(digits[0]));
    assert(is_digit(digits[n - 1]));
    if n == 1 {
        assert(p =~= seq!['0'] + digits);
        assert(p.last() == digits[0]);
        assert(point_position_spec(p) == Some(0int));
        assert(p.take(0) + seq!['.'] + p.skip(0) =~= seq!['.', '0'] + digits);
        assert(seq!['0'] + (seq!['.', '0'] + digits) =~= seq!['0', '.', '0'] + digits);
    } else {
        assert(p == digits);
        assert(is_digit(digits[n - 2]));
        assert(p.last() == digits[n - 1]);
        assert(point_position_spec(p) == Some(n - 2));
        let q = p.take(n - 2) + seq!['.'] + p.skip(n - 2);
        if n == 2 {
            assert(q =~= seq!['.'] + digits);
            assert(seq!['0'] + q =~= seq!['0', '.'] + digits);
        } else {
            assert(q[0] == digits[0]);
        }
    }
}

} // verus!
