//! Saving the canvas: what a save consists of, and the name under which the
//! file of the save before is kept.
//!
//! The canvas is saved on a timer and once more when the server is told to
//! stop. This module decides what each save does; writing the file is the
//! caller's part.

use crate::config::{ends_with_png, Settings};
use vstd::prelude::*;
use vstd::string::StrSliceExecFns;
use vstd::string::StringExecFns;

verus! {

/// The character that stands for a digit.
pub open spec fn digit_char(digit: nat) -> char
    recommends
        digit < 10,
{
    if digit == 0 {
        '0'
    } else if digit == 1 {
        '1'
    } else if digit == 2 {
        '2'
    } else if digit == 3 {
        '3'
    } else if digit == 4 {
        '4'
    } else if digit == 5 {
        '5'
    } else if digit == 6 {
        '6'
    } else if digit == 7 {
        '7'
    } else if digit == 8 {
        '8'
    } else {
        '9'
    }
}

/// A number written in decimal, without leading zeros.
pub open spec fn decimal(number: nat) -> Seq<char>
    decreases number,
{
    if number < 10 {
        seq![digit_char(number)]
    } else {
        decimal(number / 10).push(digit_char(number % 10))
    }
}

/// Where the last dot of a path stands, or `-1` if the path has none.
pub open spec fn last_dot(path: Seq<char>) -> int
    decreases path.len(),
{
    if path.len() == 0 {
        -1
    } else if path.last() == '.' {
        path.len() - 1
    } else {
        last_dot(path.drop_last())
    }
}

/// The name under which the file at `path` is kept when a new save takes its
/// place: the path with the time of the save, in seconds since 1970, put in
/// before the last dot, so that `place.png` becomes `place.1700000000.png`. A
/// path without a dot has no such name.
pub open spec fn archived_name(path: Seq<char>, unix_time: nat) -> Option<Seq<char>> {
    let dot = last_dot(path);
    if dot < 0 {
        None
    } else {
        Some(
            path.subrange(0, dot) + seq!['.'] + decimal(unix_time) + path.subrange(
                dot,
                path.len() as int,
            ),
        )
    }
}

/// Why the canvas is being saved.
#[derive(Debug, Clone, Copy, PartialEq, Eq, Structural)]
pub enum SaveReason {
    /// The save interval has passed.
    Scheduled,
    /// The server was told to stop; this is the last save.
    Shutdown,
}

/// What one save consists of. The steps are taken in this order: the file
/// that is there is renamed to `archive_as`, if that is set; the snapshot is
/// written to `path`; the file is read back and decoded, if `verify` is set.
/// A step that fails is logged and the rest goes on.
#[derive(Debug)]
pub struct SavePlan {
    /// The name to keep the file of the save before under, if it is kept.
    pub archive_as: Option<String>,
    /// The file that the snapshot is written to.
    pub path: String,
    /// Whether the file is read back after it was written.
    pub verify: bool,
}

/// The name that a save plan keeps the old file under, as a sequence of
/// characters.
pub open spec fn planned_archive(settings: Settings, unix_time: u64) -> Option<Seq<char>> {
    if settings.save_all_images {
        archived_name(settings.save_location@, unix_time as nat)
    } else {
        None
    }
}

/// Plans a save at the given time. The old file is kept only where the
/// settings ask for it; the file is read back after a scheduled save and not
/// after the last one.
pub fn plan_save(settings: &Settings, reason: SaveReason, unix_time: u64) -> (plan: SavePlan)
    ensures
        plan.path@ == settings.save_location@,
        plan.verify == (reason == SaveReason::Scheduled),
        match plan.archive_as {
            Some(name) => planned_archive(*settings, unix_time) == Some(name@),
            None => planned_archive(*settings, unix_time) is None,
        },
{
    let archive_as = if settings.save_all_images {
        archive_name(settings.save_location.as_str(), unix_time)
    } else {
        None
    };
    let verify = match reason {
        SaveReason::Scheduled => true,
        SaveReason::Shutdown => false,
    };
    SavePlan { archive_as, path: settings.save_location.clone(), verify }
}

/// Computes the name under which the file at `path` is kept: see
/// [`archived_name`]. Returns `None` exactly when the path has no dot.
pub fn archive_name(path: &str, unix_time: u64) -> (name: Option<String>)
    ensures
        match name {
            Some(name) => archived_name(path@, unix_time as nat) == Some(name@),
            None => archived_name(path@, unix_time as nat) is None,
        },
{
    let len: usize = path.unicode_len();
    let mut end: usize = len;
    assert(path@.subrange(0, len as int) == path@);
    while end > 0 && path.get_char(end - 1) != '.'
        invariant
            end <= len,
            len == path@.len(),
            last_dot(path@) == last_dot(path@.subrange(0, end as int)),
        decreases end,
    {
        proof {
            let head = path@.subrange(0, end as int);
            assert(head.last() == path@[end - 1]);
            assert(head.drop_last() == path@.subrange(0, end - 1));
        }
        end -= 1;
    }
    proof {
        let head = path@.subrange(0, end as int);
        if end > 0 {
            assert(head.last() == path@[end - 1]);
        }
    }
    if end == 0 {
        return None;
    }
    let dot: usize = end - 1;
    let mut name = String::from_str(path.substring_char(0, dot));
    proof {
        reveal_strlit(".");
        assert("."@ =~= seq!['.']);
    }
    name.append(".");
    append_decimal(&mut name, unix_time);
    name.append(path.substring_char(dot, len));
    Some(name)
}

/// Appends a number in decimal to a string.
fn append_decimal(text: &mut String, number: u64)
    ensures
        final(text)@ == old(text)@ + decimal(number as nat),
    decreases number,
{
    if number >= 10 {
        append_decimal(text, number / 10);
    }
    text.append(digit_text(number % 10));
    proof {
        if number >= 10 {
            assert(old(text)@ + decimal(number as nat / 10) + seq![digit_char(number as nat % 10)]
                == old(text)@ + decimal(number as nat / 10).push(digit_char(number as nat % 10)));
        }
    }
}

/// The text of one digit.
fn digit_text(digit: u64) -> (text: &'static str)
    requires
        digit < 10,
    ensures
        text@ == seq![digit_char(digit as nat)],
{
    proof {
        reveal_strlit("0");
        reveal_strlit("1");
        reveal_strlit("2");
        reveal_strlit("3");
        reveal_strlit("4");
        reveal_strlit("5");
        reveal_strlit("6");
        reveal_strlit("7");
        reveal_strlit("8");
        reveal_strlit("9");
    }
    let text = if digit == 0 {
        "0"
    } else if digit == 1 {
        "1"
    } else if digit == 2 {
        "2"
    } else if digit == 3 {
        "3"
    } else if digit == 4 {
        "4"
    } else if digit == 5 {
        "5"
    } else if digit == 6 {
        "6"
    } else if digit == 7 {
        "7"
    } else if digit == 8 {
        "8"
    } else {
        "9"
    };
    assert(text@ =~= seq![digit_char(digit as nat)]);
    text
}

/// Every number has at least one digit.
pub proof fn lemma_decimal_not_empty(number: nat)
    ensures
        decimal(number).len() >= 1,
    decreases number,
{
    if number >= 10 {
        lemma_decimal_not_empty(number / 10);
    }
}

/// The last dot of a path, where there is one, is a dot inside the path.
pub proof fn lemma_last_dot(path: Seq<char>)
    ensures
        -1 <= last_dot(path) < path.len(),
        last_dot(path) >= 0 ==> path[last_dot(path)] == '.',
        forall|i: int| last_dot(path) < i < path.len() ==> path[i] != '.',
    decreases path.len(),
{
    if path.len() > 0 && path.last() != '.' {
        let head = path.drop_last();
        lemma_last_dot(head);
        assert forall|i: int| last_dot(path) < i < path.len() implies path[i] != '.' by {
            if i < head.len() {
                assert(head[i] == path[i]);
            }
        }
    }
}

/// A path that has a dot has an archived name, and that name is never the
/// path itself: it is longer, by the digits of the time and one dot. It ends
/// as the path ends, from the last dot on.
pub proof fn lemma_archived_name_differs(path: Seq<char>, unix_time: nat)
    requires
        last_dot(path) >= 0,
    ensures
        archived_name(path, unix_time) is Some,
        archived_name(path, unix_time)->Some_0.len() == path.len() + 1 + decimal(unix_time).len(),
        archived_name(path, unix_time)->Some_0 != path,
        ({
            let name = archived_name(path, unix_time)->Some_0;
            let tail = path.len() - last_dot(path);
            name.subrange(name.len() - tail, name.len() as int) == path.subrange(
                last_dot(path),
                path.len() as int,
            )
        }),
{
    lemma_last_dot(path);
    lemma_decimal_not_empty(unix_time);
}

/// Every path that ends in `.png` has an archived name, and that name ends in
/// `.png` too.
pub proof fn lemma_png_path_has_archive(path: Seq<char>, unix_time: nat)
    requires
        ends_with_png(path),
    ensures
        archived_name(path, unix_time) is Some,
        ends_with_png(archived_name(path, unix_time)->Some_0),
{
    let tail = path.subrange(path.len() - 4, path.len() as int);
    assert(tail[0] == '.');
    assert(path[path.len() - 4] == '.');
    assert(tail[1] == 'p' && tail[2] == 'n' && tail[3] == 'g');
    lemma_last_dot(path);
    assert(last_dot(path) == path.len() - 4) by {
        if last_dot(path) < path.len() - 4 {
            assert(path[path.len() - 4] != '.');
        }
        if last_dot(path) > path.len() - 4 {
            assert(path[last_dot(path)] == tail[last_dot(path) - (path.len() - 4)]);
        }
    }
    let name = archived_name(path, unix_time)->Some_0;
    assert(name.subrange(name.len() - 4, name.len() as int) =~= seq!['.', 'p', 'n', 'g']);
}

} // verus!
