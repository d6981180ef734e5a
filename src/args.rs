use vstd::prelude::*;

verus! {

/// The command line, split into its operation, the operation's flags, the
/// target and the long options.
#[derive(Debug)]
pub struct Args {
    pub operation: Option<char>,
    pub operation_flags: Vec<char>,
    pub target: Option<String>,
    pub additional_options: Vec<String>,
}

/// The mathematical value of [`Args`].
pub struct ArgsView {
    pub operation: Option<char>,
    pub operation_flags: Seq<char>,
    pub target: Option<Seq<char>>,
    pub additional_options: Seq<Seq<char>>,
}

impl View for Args {
    type V = ArgsView;

    open spec fn view(&self) -> ArgsView {
        ArgsView {
            operation: self.operation,
            operation_flags: self.operation_flags@,
            target: match self.target {
                Some(t) => Some(t@),
                None => None,
            },
            additional_options: self.additional_options.deep_view(),
        }
    }
}

/// Why a command line was refused.
#[derive(Debug, Clone, Copy, PartialEq, Eq, Structural)]
pub enum ParseError {
    /// A second operation token (`-X...`) was given.
    MultipleOperations,
    /// A second free-standing token was given.
    MultipleTargets,
    /// A lone `-` stood where an operation token was expected.
    EmptyOperation,
}

impl ParseError {
    /// The message shown to the user for this error.
    pub fn message(&self) -> (r: String)
        ensures
            r@ == self.spec_message(),
    {
        match self {
            ParseError::MultipleOperations => String::from_str("error: Multiple operations provided"),
            ParseError::MultipleTargets => String::from_str("error: Multiple targets provided"),
            ParseError::EmptyOperation => String::from_str("error: No operation after '-'"),
        }
    }

    pub open spec fn spec_message(&self) -> Seq<char> {
        match self {
            ParseError::MultipleOperations => "error: Multiple operations provided"@,
            ParseError::MultipleTargets => "error: Multiple targets provided"@,
            ParseError::EmptyOperation => "error: No operation after '-'"@,
        }
    }
}

/// A token that starts with one dash but not two: it selects the operation.
pub open spec fn is_operation_token(t: Seq<char>) -> bool {
    t.len() >= 1 && t[0] == '-' && !(t.len() >= 2 && t[1] == '-')
}

/// A token that starts with two dashes: a long option.
pub open spec fn is_long_option(t: Seq<char>) -> bool {
    t.len() >= 2 && t[0] == '-' && t[1] == '-'
}

/// The command line before any token has been read.
pub open spec fn empty_args() -> ArgsView {
    ArgsView {
        operation: None,
        operation_flags: Seq::empty(),
        target: None,
        additional_options: Seq::empty(),
    }
}

/// Reads one more token into a partly parsed command line.
pub open spec fn absorb(acc: ArgsView, t: Seq<char>) -> Result<ArgsView, ParseError> {
    if is_operation_token(t) {
        if acc.operation is Some {
            Err(ParseError::MultipleOperations)
        } else if t.len() < 2 {
            Err(ParseError::EmptyOperation)
        } else {
            Ok(ArgsView { operation: Some(t[1]), operation_flags: t.skip(2), ..acc })
        }
    } else if is_long_option(t) {
        Ok(ArgsView { additional_options: acc.additional_options.push(t), ..acc })
    } else if acc.target is None {
        Ok(ArgsView { target: Some(t), ..acc })
    } else {
        Err(ParseError::MultipleTargets)
    }
}

/// The command line that a list of tokens gives, read left to right; the
/// first refused token decides the error.
pub open spec fn parse_spec(tokens: Seq<Seq<char>>) -> Result<ArgsView, ParseError>
    decreases tokens.len(),
{
    if tokens.len() == 0 {
        Ok(empty_args())
    } else {
        match parse_spec(tokens.drop_last()) {
            Ok(acc) => absorb(acc, tokens.last()),
            Err(e) => Err(e),
        }
    }
}

/// Once a prefix of the tokens is refused, the whole list is refused with the
/// same error.
proof fn lemma_error_persists(tokens: Seq<Seq<char>>, k: int)
    requires
        0 <= k <= tokens.len(),
        parse_spec(tokens.take(k)) is Err,
    ensures
        parse_spec(tokens) == parse_spec(tokens.take(k)),
    decreases tokens.len(),
{
    if k == tokens.len() {
        assert(tokens.take(k) =~= tokens);
    } else {
        let shorter = tokens.drop_last();
        assert(shorter.take(k) =~= tokens.take(k));
        lemma_error_persists(shorter, k);
    }
}

/// A token that is neither an operation nor a long option: a target.
pub open spec fn is_free_token(t: Seq<char>) -> bool {
    !is_operation_token(t) && !is_long_option(t)
}

/// Parsing a prefix that ends just before the single operation token, or
/// after it, keeps the operation unset, or set from that token.
proof fn lemma_single_operation_prefix(tokens: Seq<Seq<char>>, k: int, j: int)
    requires
        0 <= k < tokens.len(),
        0 <= j <= tokens.len(),
        is_operation_token(tokens[k]),
        tokens[k].len() >= 2,
        forall|i: int| 0 <= i < tokens.len() && i != k ==> !is_operation_token(#[trigger] tokens[i]),
        forall|i: int, l: int|
            0 <= i < l < tokens.len() && is_free_token(#[trigger] tokens[i]) ==> !is_free_token(
                #[trigger] tokens[l],
            ),
    ensures
        parse_spec(tokens.take(j)) is Ok,
        j <= k ==> parse_spec(tokens.take(j))->Ok_0.operation is None,
        j > k ==> parse_spec(tokens.take(j))->Ok_0.operation == Some(tokens[k][1]),
        j > k ==> parse_spec(tokens.take(j))->Ok_0.operation_flags == tokens[k].skip(2),
        parse_spec(tokens.take(j))->Ok_0.target is Some ==> exists|i: int|
            0 <= i < j && is_free_token(#[trigger] tokens[i]),
    decreases j,
{
    if j == 0 {
        assert(tokens.take(0) =~= Seq::<Seq<char>>::empty());
    } else {
        lemma_single_operation_prefix(tokens, k, j - 1);
        assert(tokens.take(j).drop_last() =~= tokens.take(j - 1));
        assert(tokens.take(j).last() == tokens[j - 1]);
    }
}

/// With exactly one operation token in the list, which names an operation,
/// and at most one target, parsing succeeds: the operation is that token's
/// second character and the flags are the characters after it, in order.
pub proof fn law_single_operation_extracted(tokens: Seq<Seq<char>>, k: int)
    requires
        0 <= k < tokens.len(),
        is_operation_token(tokens[k]),
        tokens[k].len() >= 2,
        forall|i: int| 0 <= i < tokens.len() && i != k ==> !is_operation_token(#[trigger] tokens[i]),
        forall|i: int, l: int|
            0 <= i < l < tokens.len() && is_free_token(#[trigger] tokens[i]) ==> !is_free_token(
                #[trigger] tokens[l],
            ),
    ensures
        parse_spec(tokens) is Ok,
        parse_spec(tokens)->Ok_0.operation == Some(tokens[k][1]),
        parse_spec(tokens)->Ok_0.operation_flags == tokens[k].skip(2),
{
    lemma_single_operation_prefix(tokens, k, tokens.len() as int);
    assert(tokens.take(tokens.len() as int) =~= tokens);
}

/// Once an operation token has been read, every successful parse of a
/// longer prefix has its operation set.
proof fn lemma_operation_stays_set(tokens: Seq<Seq<char>>, i: int, j: int)
    requires
        0 <= i < j <= tokens.len(),
        is_operation_token(tokens[i]),
        parse_spec(tokens.take(j)) is Ok,
    ensures
        parse_spec(tokens.take(j))->Ok_0.operation is Some,
    decreases j,
{
    assert(tokens.take(j).drop_last() =~= tokens.take(j - 1));
    assert(tokens.take(j).last() == tokens[j - 1]);
    if j - 1 > i {
        lemma_operation_stays_set(tokens, i, j - 1);
    }
}

/// Two operation tokens anywhere in the list make parsing fail.
pub proof fn law_second_operation_refused(tokens: Seq<Seq<char>>, i: int, l: int)
    requires
        0 <= i < l < tokens.len(),
        is_operation_token(tokens[i]),
        is_operation_token(tokens[l]),
    ensures
        parse_spec(tokens) is Err,
{
    let prefix = tokens.take(l + 1);
    assert(prefix.drop_last() =~= tokens.take(l));
    assert(prefix.last() == tokens[l]);
    if parse_spec(tokens.take(l)) is Ok {
        lemma_operation_stays_set(tokens, i, l);
    } else {
        assert(tokens.take(l).take(l) =~= tokens.take(l));
        assert(parse_spec(prefix) is Err);
    }
    lemma_error_persists(tokens, l + 1);
}

/// Parses the program's arguments (without the program name).
pub fn parse_args(tokens: &Vec<String>) -> (r: Result<Args, ParseError>)
    ensures
        match (r, parse_spec(tokens.deep_view())) {
            (Ok(a), Ok(v)) => a@ == v,
            (Err(e), Err(f)) => e == f,
            _ => false,
        },
{
    let mut acc = Args {
        operation: None,
        operation_flags: Vec::new(),
        target: None,
        additional_options: Vec::new(),
    };
    let mut i: usize = 0;
    assert(tokens.deep_view().take(0) =~= Seq::<Seq<char>>::empty());
    assert(acc@.operation_flags =~= Seq::<char>::empty());
    assert(acc@.additional_options =~= Seq::<Seq<char>>::empty());
    while i < tokens.len()
        invariant
            0 <= i <= tokens.len(),
            parse_spec(tokens.deep_view().take(i as int)) == Ok::<ArgsView, ParseError>(acc@),
        decreases tokens.len() - i,
    {
        let ghost before = acc@;
        let t: &String = &tokens[i];
        let n: usize = t.as_str().unicode_len();
        let first_dash = n >= 1 && t.as_str().get_char(0) == '-';
        let second_dash = n >= 2 && t.as_str().get_char(1) == '-';
        proof {
            let s = tokens.deep_view();
            assert(s.take(i + 1).drop_last() =~= s.take(i as int));
            assert(s.take(i + 1).last() == t@);
        }
        if first_dash && !second_dash {
            if acc.operation.is_some() {
                proof {
                    lemma_error_persists(tokens.deep_view(), i + 1);
                }
                return Err(ParseError::MultipleOperations);
            }
            if n < 2 {
                proof {
                    lemma_error_persists(tokens.deep_view(), i + 1);
                }
                return Err(ParseError::EmptyOperation);
            }
            let mut flags: Vec<char> = Vec::new();
            let mut j: usize = 2;
            while j < n
                invariant
                    2 <= j <= n,
                    n == t@.len(),
                    flags@ =~= t@.subrange(2, j as int),
                decreases n - j,
            {
                flags.push(t.as_str().get_char(j));
                j = j + 1;
            }
            acc.operation = Some(t.as_str().get_char(1));
            acc.operation_flags = flags;
            assert(acc@ == absorb(before, t@)->Ok_0);
        } else if first_dash && second_dash {
            acc.additional_options.push(t.clone());
            assert(acc@.additional_options =~= before.additional_options.push(t@));
        } else if acc.target.is_none() {
            acc.target = Some(t.clone());
        } else {
            proof {
                lemma_error_persists(tokens.deep_view(), i + 1);
            }
            return Err(ParseError::MultipleTargets);
        }
        i = i + 1;
    }
    assert(tokens.deep_view().take(tokens.len() as int) =~= tokens.deep_view());
    Ok(acc)
}

} // verus!
