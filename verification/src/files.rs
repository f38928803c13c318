//! Which files of a directory are cleaned.

use vstd::prelude::*;

verus! {

/// Whether a file of this name is cleaned: the name ends in `.csv`, in lower
/// case.
pub open spec fn has_csv_extension(name: Seq<char>) -> bool {
    ".csv"@.is_suffix_of(name)
}

/// Whether a file of this name is cleaned.
pub fn is_csv_file_name(name: &str) -> (is_csv: bool)
    ensures
        is_csv == has_csv_extension(name@),
{
    // The last four characters read, `last` being the newest.
    let mut fourth_last = ' ';
    let mut third_last = ' ';
    let mut second_last = ' ';
    let mut last = ' ';
    let mut seen: u8 = 0;
    for c in it: name.chars()
        invariant
            it.seq() == name@,
            seen == if it.index() < 4 { it.index() } else { 4 },
            seen >= 1 ==> last == name@[it.index() - 1],
            seen >= 2 ==> second_last == name@[it.index() - 2],
            seen >= 3 ==> third_last == name@[it.index() - 3],
            seen >= 4 ==> fourth_last == name@[it.index() - 4],
    {
        fourth_last = third_last;
        third_last = second_last;
        second_last = last;
        last = c;
        if seen < 4 {
            seen = seen + 1;
        }
    }
    proof {
        reveal_strlit(".csv");
        let suffix = ".csv"@;
        let length = name@.len() as int;
        if length >= 4 {
            let end = name@.subrange(length - 4, length);
            assert(end[0] == name@[length - 4]);
            assert(end[1] == name@[length - 3]);
            assert(end[2] == name@[length - 2]);
            assert(end[3] == name@[length - 1]);
            if fourth_last == '.' && third_last == 'c' && second_last == 's' && last == 'v' {
                assert(suffix =~= end);
            }
        }
    }
    seen == 4 && fourth_last == '.' && third_last == 'c' && second_last == 's' && last == 'v'
}

} // verus!
