//! Where a motion takes the cursor: searches over the chars of the content.

use vstd::prelude::*;

use crate::chars::{char_is_whitespace, is_whitespace, xor_ident_char};
use crate::keymaps::GoToAction;

verus! {

/// A test on one char, that a search looks for.
#[derive(Clone, Copy, Debug)]
pub enum CharTest {
    /// The char is the given one.
    Is(char),
    /// The char is a whitespace.
    Space,
    /// The char is no whitespace.
    NonSpace,
    /// Of the char and the given one, exactly one may stand in an identifier.
    XorIdent(char),
}

impl CharTest {
    /// Whether `ch` passes the test.
    pub open spec fn spec_holds(self, ch: char) -> bool {
        match self {
            CharTest::Is(wanted) => ch == wanted,
            CharTest::Space => is_whitespace(ch),
            CharTest::NonSpace => !is_whitespace(ch),
            CharTest::XorIdent(other) => xor_ident_char(other, ch),
        }
    }

    /// Returns `true` iff `ch` passes the test.
    #[verifier::when_used_as_spec(spec_holds)]
    pub fn holds(self, ch: char) -> (passes: bool)
        ensures
            passes == self.spec_holds(ch),
    {
        match self {
            CharTest::Is(wanted) => ch == wanted,
            CharTest::Space => char_is_whitespace(ch),
            CharTest::NonSpace => !char_is_whitespace(ch),
            CharTest::XorIdent(other) => xor_ident_char(other, ch),
        }
    }
}

/// The least index from `from` on whose char passes `test`, or the length of
/// `chars` where no such char is left.
pub open spec fn first_from(chars: Seq<char>, from: int, test: CharTest) -> int
    decreases chars.len() - from,
{
    if from >= chars.len() {
        chars.len() as int
    } else if 0 <= from && test.holds(chars[from]) {
        from
    } else {
        first_from(chars, from + 1, test)
    }
}

/// The greatest index below `before` whose char passes `test`, or -1 where
/// there is no such char.
pub open spec fn last_before(chars: Seq<char>, before: int, test: CharTest) -> int
    decreases before,
{
    if before <= 0 {
        -1
    } else if before <= chars.len() && test.holds(chars[before - 1]) {
        before - 1
    } else {
        last_before(chars, before - 1, test)
    }
}

/// [`first_from`] is the first index from `from` on at which the test
/// passes: it passes there, unless the result is the length, and fails at
/// every index in between.
pub proof fn lemma_first_from(chars: Seq<char>, from: int, test: CharTest)
    requires
        0 <= from <= chars.len(),
    ensures
        from <= first_from(chars, from, test) <= chars.len(),
        first_from(chars, from, test) < chars.len() ==> test.holds(
            chars[first_from(chars, from, test)],
        ),
        forall|i: int| from <= i < first_from(chars, from, test) ==> !test.holds(chars[i]),
    decreases chars.len() - from,
{
    if from < chars.len() && !test.holds(chars[from]) {
        lemma_first_from(chars, from + 1, test);
    }
}

/// [`last_before`] is the last index below `before` at which the test
/// passes: it passes there, unless the result is -1, and fails at every index
/// in between.
pub proof fn lemma_last_before(chars: Seq<char>, before: int, test: CharTest)
    requires
        before <= chars.len(),
    ensures
        -1 <= last_before(chars, before, test),
        last_before(chars, before, test) < before || before < 0,
        0 <= last_before(chars, before, test) ==> test.holds(
            chars[last_before(chars, before, test)],
        ),
        forall|i: int|
            last_before(chars, before, test) < i < before && 0 <= i ==> !test.holds(chars[i]),
    decreases before,
{
    if before > 0 && !test.holds(chars[before - 1]) {
        lemma_last_before(chars, before - 1, test);
    }
}

/// Returns the least index from `from` on whose char passes `test`, or the
/// length of `chars` where no such char is left.
pub fn find_from(chars: &Vec<char>, from: usize, test: CharTest) -> (found: usize)
    requires
        from <= chars@.len(),
    ensures
        found == first_from(chars@, from as int, test),
        from <= found <= chars@.len(),
{
    let mut index = from;
    while index < chars.len() && !test.holds(chars[index])
        invariant
            from <= index <= chars@.len(),
            first_from(chars@, from as int, test) == first_from(chars@, index as int, test),
        decreases chars@.len() - index,
    {
        index = index + 1;
    }
    index
}

/// Returns the greatest index below `before` whose char passes `test`, or
/// `None` where there is no such char.
pub fn find_before(chars: &Vec<char>, before: usize, test: CharTest) -> (found: Option<usize>)
    requires
        before <= chars@.len(),
    ensures
        match found {
            Some(index) => index == last_before(chars@, before as int, test) && index < before,
            None => last_before(chars@, before as int, test) == -1,
        },
{
    let mut index = before;
    while index > 0 && !test.holds(chars[index - 1])
        invariant
            index <= before <= chars@.len(),
            last_before(chars@, before as int, test) == last_before(chars@, index as int, test),
        decreases index,
    {
        index = index - 1;
    }
    if index > 0 {
        Some(index - 1)
    } else {
        None
    }
}

/// The index at which the next word starts after `cursor`: past the chars
/// that follow the cursor and are of its kind (of an identifier or not), and
/// past the whitespace after them. It is the length where no word follows.
pub open spec fn next_word_start(chars: Seq<char>, cursor: int) -> int {
    if 0 <= cursor < chars.len() {
        let boundary = first_from(chars, cursor + 1, CharTest::XorIdent(chars[cursor]));
        first_from(chars, boundary, CharTest::NonSpace)
    } else {
        chars.len() as int
    }
}

/// The index at which the next WORD starts after `cursor`: past what is left
/// of the chars that are no whitespace, and past the whitespace after them.
/// It is the length where no WORD follows.
pub open spec fn next_big_word_start(chars: Seq<char>, cursor: int) -> int {
    first_from(chars, first_from(chars, cursor, CharTest::Space), CharTest::NonSpace)
}

/// The index at which the previous word starts before `cursor`: back over
/// the whitespace before the cursor, then back to the first of the chars
/// that are of the kind of the one reached (of an identifier or not). It is
/// 0 where only whitespace stands before the cursor.
pub open spec fn previous_word_start(chars: Seq<char>, cursor: int) -> int {
    let end = last_before(chars, cursor, CharTest::NonSpace);
    if end < 0 {
        0
    } else {
        last_before(chars, end, CharTest::XorIdent(chars[end])) + 1
    }
}

/// The index at which the previous WORD starts before `cursor`: back over
/// the whitespace before the cursor, then back to the first of the chars
/// that are no whitespace. It is 0 where only whitespace stands before the
/// cursor.
pub open spec fn previous_big_word_start(chars: Seq<char>, cursor: int) -> int {
    let end = last_before(chars, cursor, CharTest::NonSpace);
    last_before(chars, end, CharTest::Space) + 1
}

/// Whether a WORD starts at `index`: a char that is no whitespace stands
/// there, at the start of `chars` or after a whitespace.
pub open spec fn is_big_word_start(chars: Seq<char>, index: int) -> bool {
    &&& 0 <= index < chars.len()
    &&& !is_whitespace(chars[index])
    &&& index == 0 || is_whitespace(chars[index - 1])
}

/// [`next_big_word_start`] is the first index after the cursor at which a
/// WORD starts, or the length where no WORD starts after the cursor.
pub proof fn lemma_next_big_word_start(chars: Seq<char>, cursor: int)
    requires
        0 <= cursor <= chars.len(),
    ensures
        cursor <= next_big_word_start(chars, cursor) <= chars.len(),
        cursor < chars.len() ==> cursor < next_big_word_start(chars, cursor),
        next_big_word_start(chars, cursor) < chars.len() ==> is_big_word_start(
            chars,
            next_big_word_start(chars, cursor),
        ),
        forall|i: int|
            cursor < i < next_big_word_start(chars, cursor) ==> !is_big_word_start(chars, i),
{
    let space = first_from(chars, cursor, CharTest::Space);
    lemma_first_from(chars, cursor, CharTest::Space);
    lemma_first_from(chars, space, CharTest::NonSpace);
}

/// [`previous_big_word_start`] is the last index before the cursor at which
/// a WORD starts, or 0 where no WORD starts before the cursor.
pub proof fn lemma_previous_big_word_start(chars: Seq<char>, cursor: int)
    requires
        0 <= cursor <= chars.len(),
    ensures
        0 <= previous_big_word_start(chars, cursor) <= cursor,
        previous_big_word_start(chars, cursor) < cursor && is_big_word_start(
            chars,
            previous_big_word_start(chars, cursor),
        ) || previous_big_word_start(chars, cursor) == 0,
        forall|i: int|
            previous_big_word_start(chars, cursor) < i < cursor ==> !is_big_word_start(chars, i),
        previous_big_word_start(chars, cursor) == 0 && !is_big_word_start(chars, 0) ==> forall|
            i: int,
        | 0 <= i < cursor ==> !is_big_word_start(chars, i),
{
    let end = last_before(chars, cursor, CharTest::NonSpace);
    lemma_last_before(chars, cursor, CharTest::NonSpace);
    lemma_last_before(chars, end, CharTest::Space);
}

/// Where `goto` takes a cursor that stands at `cursor` in `chars`, or `None`
/// where the motion fails because the char that it looks for is not found.
pub open spec fn goto_target(chars: Seq<char>, cursor: int, goto: GoToAction) -> Option<int> {
    match goto {
        GoToAction::Right => Some(
            if cursor < chars.len() {
                cursor + 1
            } else {
                cursor
            },
        ),
        GoToAction::Left => Some(
            if cursor > 0 {
                cursor - 1
            } else {
                cursor
            },
        ),
        GoToAction::Bol => Some(0),
        GoToAction::Eol => Some(chars.len() as int),
        GoToAction::FirstNonSpace => Some(first_from(chars, 0, CharTest::NonSpace)),
        GoToAction::NextOccurrenceOf(ch) => {
            let found = first_from(chars, cursor + 1, CharTest::Is(ch));
            if found < chars.len() {
                Some(found)
            } else {
                None
            }
        },
        GoToAction::PreviousOccurrenceOf(ch) => {
            let found = last_before(chars, cursor, CharTest::Is(ch));
            if found >= 0 {
                Some(found)
            } else {
                None
            }
        },
        GoToAction::NextWORD => Some(next_big_word_start(chars, cursor)),
        GoToAction::NextWord => Some(next_word_start(chars, cursor)),
        GoToAction::PreviousWORD => Some(previous_big_word_start(chars, cursor)),
        GoToAction::PreviousWord => Some(previous_word_start(chars, cursor)),
    }
}

/// A motion leaves the cursor within the content.
pub proof fn lemma_goto_target_in_range(chars: Seq<char>, cursor: int, goto: GoToAction)
    requires
        0 <= cursor <= chars.len(),
    ensures
        goto_target(chars, cursor, goto) is Some ==> 0 <= goto_target(chars, cursor, goto)->0
            <= chars.len(),
{
    lemma_first_from(chars, 0, CharTest::NonSpace);
    match goto {
        GoToAction::NextOccurrenceOf(ch) => {
            if cursor < chars.len() {
                lemma_first_from(chars, cursor + 1, CharTest::Is(ch));
            }
        },
        GoToAction::PreviousOccurrenceOf(ch) => {
            lemma_last_before(chars, cursor, CharTest::Is(ch));
        },
        GoToAction::NextWORD => {
            lemma_first_from(chars, cursor, CharTest::Space);
            lemma_first_from(
                chars,
                first_from(chars, cursor, CharTest::Space),
                CharTest::NonSpace,
            );
        },
        GoToAction::NextWord => {
            if cursor < chars.len() {
                let test = CharTest::XorIdent(chars[cursor]);
                lemma_first_from(chars, cursor + 1, test);
                lemma_first_from(chars, first_from(chars, cursor + 1, test), CharTest::NonSpace);
            }
        },
        GoToAction::PreviousWORD => {
            lemma_last_before(chars, cursor, CharTest::NonSpace);
            lemma_last_before(
                chars,
                last_before(chars, cursor, CharTest::NonSpace),
                CharTest::Space,
            );
        },
        GoToAction::PreviousWord => {
            lemma_last_before(chars, cursor, CharTest::NonSpace);
            let end = last_before(chars, cursor, CharTest::NonSpace);
            if end >= 0 {
                lemma_last_before(chars, end, CharTest::XorIdent(chars[end]));
            }
        },
        _ => {},
    }
}

} // verus!
