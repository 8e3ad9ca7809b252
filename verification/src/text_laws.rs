//! What holds of the text that the program puts together.

use crate::text;
use vstd::prelude::*;

verus! {

/// Whether every character of `s` is a decimal digit.
pub open spec fn all_digits(s: Seq<char>) -> bool {
    forall|i: int| 0 <= i < s.len() ==> '0' <= #[trigger] s[i] <= '9'
}

/// The number that decimal digits stand for.
pub open spec fn number(s: Seq<char>) -> int
    decreases s.len(),
{
    if s.len() == 0 {
        0
    } else {
        10 * number(s.drop_last()) + (s.last() as int - '0' as int)
    }
}

proof fn lemma_digits(n: nat)
    ensures
        all_digits(text::digits(n)),
        number(text::digits(n)) == n,
        text::digits(n).len() > 0,
        n > 0 ==> text::digits(n)[0] != '0',
        n < 10 ==> text::digits(n).len() == 1,
    decreases n,
{
    let s = text::digits(n);
    if n < 10 {
        assert(s.drop_last() =~= Seq::empty());
        assert(number(s.drop_last()) == 0);
    } else {
        lemma_digits(n / 10);
        let before = text::digits(n / 10);
        assert(s.drop_last() =~= before);
        assert forall|i: int| 0 <= i < s.len() implies '0' <= #[trigger] s[i] <= '9' by {
            if i < before.len() {
                assert(s[i] == before[i]);
            }
        }
        assert(s[0] == before[0]);
    }
}

/// A number reads back from its decimal text: a minus sign exactly where it is negative, and then
/// digits alone that stand for it, without zeros in front.
pub proof fn law_decimal(n: int)
    ensures
        n >= 0 ==> {
            &&& all_digits(text::decimal_text(n))
            &&& number(text::decimal_text(n)) == n
            &&& text::decimal_text(n).len() > 1 ==> text::decimal_text(n)[0] != '0'
            &&& text::decimal_text(n).len() > 0
        },
        n < 0 ==> {
            let digits = text::decimal_text(n).drop_first();
            &&& text::decimal_text(n)[0] == '-'
            &&& all_digits(digits)
            &&& number(digits) == -n
            &&& digits.len() > 0 && digits[0] != '0'
        },
{
    if n >= 0 {
        lemma_digits(n as nat);
    } else {
        lemma_digits((-n) as nat);
        assert(text::decimal_text(n).drop_first() =~= text::digits((-n) as nat));
    }
}

/// Two lists joined are the one, the separator and the other; one text alone is itself, and none
/// come to nothing.
pub proof fn law_joined(a: Seq<Seq<char>>, b: Seq<Seq<char>>, one: Seq<char>, sep: Seq<char>)
    ensures
        text::joined(Seq::empty(), sep) == Seq::<char>::empty(),
        text::joined(seq![one], sep) == one,
        a.len() > 0 && b.len() > 0 ==> text::joined(a + b, sep) == text::joined(a, sep) + sep
            + text::joined(b, sep),
    decreases b.len(),
{
    if a.len() > 0 && b.len() > 0 {
        assert((a + b).drop_last() =~= a + b.drop_last());
        assert((a + b).last() == b.last());
        if b.len() > 1 {
            law_joined(a, b.drop_last(), one, sep);
            assert(text::joined(a + b, sep) =~= text::joined(a, sep) + sep + text::joined(b, sep));
        } else {
            assert(a + b.drop_last() =~= a);
        }
    }
}

/// The cells of `s` between one `c` and the next.
pub open spec fn cells(s: Seq<char>, c: char) -> Seq<Seq<char>>
    decreases s.len(),
{
    if s.len() == 0 {
        seq![Seq::empty()]
    } else {
        let before = cells(s.drop_last(), c);
        if s.last() == c {
            before.push(Seq::empty())
        } else {
            before.drop_last().push(before.last().push(s.last()))
        }
    }
}

proof fn lemma_cells_extend(s: Seq<char>, t: Seq<char>, c: char)
    requires
        !t.contains(c),
    ensures
        cells(s, c).len() > 0,
        cells(s + t, c) == cells(s, c).drop_last().push(cells(s, c).last() + t),
    decreases t.len(), s.len(),
{
    if t.len() == 0 {
        if s.len() > 0 {
            lemma_cells_extend(s.drop_last(), t, c);
        }
        assert(s + t =~= s);
        assert(cells(s, c).last() + t =~= cells(s, c).last());
        assert(cells(s, c).drop_last().push(cells(s, c).last()) =~= cells(s, c));
    } else {
        let u = t.drop_last();
        assert(!u.contains(c)) by {
            if u.contains(c) {
                let i = choose|i: int| 0 <= i < u.len() && u[i] == c;
                assert(t[i] == c);
            }
        }
        lemma_cells_extend(s, u, c);
        assert((s + t).drop_last() =~= s + u);
        assert(t.last() != c) by {
            assert(t[t.len() - 1] == t.last());
        }
        let all = cells(s + u, c);
        assert(all.drop_last() =~= cells(s, c).drop_last());
        assert(all.last().push(t.last()) =~= cells(s, c).last() + t);
    }
}

/// Texts joined by a character that none of them holds are read back as the cells between.
pub proof fn law_joined_reads_back(list: Seq<Seq<char>>, c: char)
    requires
        list.len() > 0,
        forall|i: int| 0 <= i < list.len() ==> !(#[trigger] list[i]).contains(c),
    ensures
        cells(text::joined(list, seq![c]), c) == list,
    decreases list.len(),
{
    let empty = Seq::<char>::empty();
    if list.len() == 1 {
        lemma_cells_extend(empty, list[0], c);
        assert(empty + list[0] =~= list[0]);
        assert(cells(list[0], c) =~= list);
    } else {
        let before = list.drop_last();
        assert forall|i: int| 0 <= i < before.len() implies !(#[trigger] before[i]).contains(c) by {
            assert(before[i] == list[i]);
        }
        law_joined_reads_back(before, c);
        let s = text::joined(before, seq![c]) + seq![c];
        assert(s.drop_last() =~= text::joined(before, seq![c]));
        assert(cells(s, c) == before.push(empty));
        assert(!list[list.len() - 1].contains(c));
        lemma_cells_extend(s, list.last(), c);
        assert(text::joined(list, seq![c]) =~= s + list.last());
        assert(empty + list.last() =~= list.last());
        assert(cells(s, c).drop_last() =~= before);
        assert(before.push(list.last()) =~= list);
    }
}

} // verus!
