//! Splitting a point written as text, such as `(1, -2.5, 3)`, into the text
//! of its three components.
use vstd::prelude::*;
use vstd::string::StrSliceExecFns;

verus! {

/// Why a text could not be read as a point.
#[derive(Clone, Copy, Debug, PartialEq, Eq, Structural)]
pub enum TupleError {
    /// The text does not have exactly three comma-separated components.
    ComponentCount,
    /// The first component is not a number.
    ParseX,
    /// The second component is not a number.
    ParseY,
    /// The third component is not a number.
    ParseZ,
}

impl TupleError {
    /// The text shown to the user for this error.
    pub fn message(&self) -> (r: &'static str)
        ensures
            r@ == self.spec_message(),
    {
        proof {
            reveal_strlit("Input string must have exactly 3 components");
            reveal_strlit("Failed to parse x");
            reveal_strlit("Failed to parse y");
            reveal_strlit("Failed to parse z");
        }
        match self {
            TupleError::ComponentCount => "Input string must have exactly 3 components",
            TupleError::ParseX => "Failed to parse x",
            TupleError::ParseY => "Failed to parse y",
            TupleError::ParseZ => "Failed to parse z",
        }
    }

    pub open spec fn spec_message(&self) -> Seq<char> {
        match self {
            TupleError::ComponentCount => "Input string must have exactly 3 components"@,
            TupleError::ParseX => "Failed to parse x"@,
            TupleError::ParseY => "Failed to parse y"@,
            TupleError::ParseZ => "Failed to parse z"@,
        }
    }
}

pub open spec fn is_paren(c: char) -> bool {
    c == '(' || c == ')'
}

/// `s` without the parentheses at its start.
pub open spec fn strip_front(s: Seq<char>) -> Seq<char>
    decreases s.len(),
{
    if s.len() > 0 && is_paren(s[0]) {
        strip_front(s.drop_first())
    } else {
        s
    }
}

/// `s` without the parentheses at its end.
pub open spec fn strip_back(s: Seq<char>) -> Seq<char>
    decreases s.len(),
{
    if s.len() > 0 && is_paren(s.last()) {
        strip_back(s.drop_last())
    } else {
        s
    }
}

/// `s` with every `(` and `)` removed from both of its ends.
pub open spec fn strip_parens(s: Seq<char>) -> Seq<char> {
    strip_back(strip_front(s))
}

pub open spec fn comma_count(s: Seq<char>) -> nat
    decreases s.len(),
{
    if s.len() == 0 {
        0
    } else {
        comma_count(s.drop_last()) + if s.last() == ',' {
            1nat
        } else {
            0nat
        }
    }
}

/// How many parts splitting `s` at each comma gives.
pub open spec fn component_count(s: Seq<char>) -> nat {
    comma_count(s) + 1
}

pub open spec fn comma_free(s: Seq<char>) -> bool {
    forall|i: int| 0 <= i < s.len() ==> s[i] != ','
}

/// Removes the parentheses around `input` and splits what is left at its
/// commas, which must be exactly two. The parts are returned untrimmed.
pub fn split_tuple<'a>(input: &'a str) -> (r: Result<(&'a str, &'a str, &'a str), TupleError>)
    ensures
        r is Err <==> component_count(strip_parens(input@)) != 3,
        r is Err ==> r == Err::<(&'a str, &'a str, &'a str), TupleError>(TupleError::ComponentCount),
        r matches Ok((x, y, z)) ==> {
            &&& strip_parens(input@) =~= x@ + seq![','] + y@ + seq![','] + z@
            &&& comma_free(x@)
            &&& comma_free(y@)
            &&& comma_free(z@)
        },
{
    let ghost s = input@;
    let n = input.unicode_len();
    let mut lo: usize = 0;
    assert(s.subrange(0, n as int) =~= s);
    while lo < n && (input.get_char(lo) == '(' || input.get_char(lo) == ')')
        invariant
            s == input@,
            n == s.len(),
            lo <= n,
            strip_front(s.subrange(lo as int, n as int)) == strip_front(s),
        decreases n - lo,
    {
        assert(s.subrange(lo as int, n as int).drop_first() =~= s.subrange(lo + 1, n as int));
        lo = lo + 1;
    }
    assert(strip_front(s) == s.subrange(lo as int, n as int));
    let mut hi: usize = n;
    while hi > lo && (input.get_char(hi - 1) == '(' || input.get_char(hi - 1) == ')')
        invariant
            s == input@,
            n == s.len(),
            lo <= hi <= n,
            strip_back(s.subrange(lo as int, hi as int)) == strip_parens(s),
        decreases hi,
    {
        assert(s.subrange(lo as int, hi as int).drop_last() =~= s.subrange(lo as int, hi - 1));
        hi = hi - 1;
    }
    let ghost t = s.subrange(lo as int, hi as int);
    assert(strip_parens(s) == t);
    let mut count: usize = 0;
    let mut c1: usize = lo;
    let mut c2: usize = lo;
    let mut j: usize = lo;
    while j < hi
        invariant
            s == input@,
            n == s.len(),
            lo <= j <= hi <= n,
            t == s.subrange(lo as int, hi as int),
            count == comma_count(s.subrange(lo as int, j as int)),
            count <= j - lo,
            count == 0 ==> forall|i: int| lo <= i < j ==> s[i] != ',',
            count >= 1 ==> lo <= c1 < j && s[c1 as int] == ',',
            count >= 1 ==> forall|i: int| lo <= i < c1 ==> s[i] != ',',
            count == 1 ==> forall|i: int| c1 < i < j ==> s[i] != ',',
            count >= 2 ==> c1 < c2 < j && s[c2 as int] == ',',
            count >= 2 ==> forall|i: int| c1 < i < c2 ==> s[i] != ',',
            count == 2 ==> forall|i: int| c2 < i < j ==> s[i] != ',',
        decreases hi - j,
    {
        assert(s.subrange(lo as int, j + 1).drop_last() =~= s.subrange(lo as int, j as int));
        if input.get_char(j) == ',' {
            if count == 0 {
                c1 = j;
            } else if count == 1 {
                c2 = j;
            }
            count = count + 1;
        }
        j = j + 1;
    }
    assert(t =~= s.subrange(lo as int, j as int));
    if count != 2 {
        return Err(TupleError::ComponentCount);
    }
    let x = input.substring_char(lo, c1);
    let y = input.substring_char(c1 + 1, c2);
    let z = input.substring_char(c2 + 1, hi);
    assert(t =~= x@ + seq![','] + y@ + seq![','] + z@);
    Ok((x, y, z))
}

} // verus!
