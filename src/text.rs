use vstd::prelude::*;

verus! {

/// The ten decimal digits, by value.
pub open spec fn digit_chars() -> Seq<char> {
    seq!['0', '1', '2', '3', '4', '5', '6', '7', '8', '9']
}

/// `n` written in decimal, without leading zeros.
pub open spec fn decimal(n: nat) -> Seq<char>
    decreases n,
{
    if n < 10 {
        seq![digit_chars()[n as int]]
    } else {
        decimal(n / 10) + seq![digit_chars()[(n % 10) as int]]
    }
}

/// A row of cells: each cell's text followed by one space.
pub open spec fn row_text(cells: Seq<Seq<char>>) -> Seq<char>
    decreases cells.len(),
{
    if cells.len() == 0 {
        Seq::empty()
    } else {
        row_text(cells.drop_last()) + cells.last() + seq![' ']
    }
}

/// Lines of text, each ended by a newline.
pub open spec fn lines_text(lines: Seq<Seq<char>>) -> Seq<char>
    decreases lines.len(),
{
    if lines.len() == 0 {
        Seq::empty()
    } else {
        lines_text(lines.drop_last()) + lines.last() + seq!['\n']
    }
}

/// Relies on std's `String::push`: appends one character at the end.
#[verifier::external_body]
pub(crate) fn push_char(s: &mut String, c: char)
    ensures
        final(s)@ == old(s)@.push(c),
{
    s.push(c);
}

/// The decimal digit of value `d`.
fn digit_char(d: u16) -> (c: char)
    requires
        d < 10,
    ensures
        c == digit_chars()[d as int],
{
    if d == 0 {
        '0'
    } else if d == 1 {
        '1'
    } else if d == 2 {
        '2'
    } else if d == 3 {
        '3'
    } else if d == 4 {
        '4'
    } else if d == 5 {
        '5'
    } else if d == 6 {
        '6'
    } else if d == 7 {
        '7'
    } else if d == 8 {
        '8'
    } else {
        '9'
    }
}

/// Appends `n` in decimal.
pub(crate) fn push_decimal(s: &mut String, n: u16)
    ensures
        final(s)@ == old(s)@ + decimal(n as nat),
    decreases n,
{
    if n >= 10 {
        push_decimal(s, n / 10);
    }
    let c = digit_char(n % 10);
    push_char(s, c);
    assert(s@ =~= old(s)@ + decimal(n as nat));
}

/// Appends the whole of `t`.
pub(crate) fn push_string(s: &mut String, t: &String)
    ensures
        final(s)@ == old(s)@ + t@,
{
    s.append(t.as_str());
}

/// Joins lines into one text, each line ended by a newline.
pub(crate) fn join_lines(lines: &Vec<String>) -> (s: String)
    ensures
        s@ == lines_text(lines@.map_values(|l: String| l@)),
{
    let mut s = String::new();
    let mut i: usize = 0;
    while i < lines.len()
        invariant
            i <= lines@.len(),
            s@ == lines_text(lines@.take(i as int).map_values(|l: String| l@)),
        decreases lines@.len() - i,
    {
        push_string(&mut s, &lines[i]);
        push_char(&mut s, '\n');
        let ghost done = lines@.take(i + 1).map_values(|l: String| l@);
        assert(done.drop_last() =~= lines@.take(i as int).map_values(|l: String| l@));
        i = i + 1;
    }
    assert(lines@.take(i as int) =~= lines@);
    s
}

} // verus!
