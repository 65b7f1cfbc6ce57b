//! Blocks of output as the lines that are printed one by one.
use vstd::prelude::*;

use crate::text::{has_prefix, join_with, split, split_on, starts_with, views};

verus! {

/// The lines of a block; blank lines stay.
pub fn block_lines(block: &str) -> (r: Vec<String>)
    ensures
        views(r@) == split_on(block@, '\n'),
{
    split(block, '\n')
}

/// A warning line carries the mark of a warning once.
pub open spec fn warning_line(message: Seq<char>) -> Seq<char> {
    if starts_with(message, "WARN: "@) {
        message
    } else {
        "WARN: "@ + message
    }
}

/// The line that is printed for a warning.
pub fn warning_text(message: &str) -> (r: String)
    ensures
        r@ == warning_line(message@),
{
    if has_prefix(message, "WARN: ") {
        message.to_owned()
    } else {
        let mut r = "WARN: ".to_owned();
        r.append(message);
        r
    }
}

/// The lines of a block, put together again, are the block.
pub proof fn block_is_its_lines(block: Seq<char>)
    ensures
        join_with(split_on(block, '\n'), seq!['\n']) == block,
{
    crate::text::join_undoes_split(block, '\n');
}

/// A line that was marked as a warning stays as it is.
pub proof fn warnings_are_marked_once(message: Seq<char>)
    ensures
        warning_line(warning_line(message)) == warning_line(message),
{
    let line = warning_line(message);
    if !starts_with(message, "WARN: "@) {
        assert(line.take("WARN: "@.len() as int) == "WARN: "@);
    }
}

} // verus!
