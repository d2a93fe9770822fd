//! One-shot commands: short scripts for the backend's interpreter, each of
//! which imports one function of the data access module, calls it and prints
//! what it returns.

use crate::endpoint::{decimal, push_decimal};
use vstd::prelude::*;
use vstd::std_specs::iter::IteratorSpec;
use vstd::string::*;

verus! {

/// An argument of a call in a script.
#[derive(Debug, PartialEq, Eq)]
pub enum Argument {
    /// Text, written as a quoted literal.
    Text(String),
    /// A number, written in decimal.
    Number(u32),
    /// A list of numbers, written in square brackets.
    Numbers(Vec<u32>),
    /// Text that is put into the script as it stands.
    Verbatim(String),
}

/// The quoted, escaped literal that the standard library's `Debug` formatting
/// writes for the string `text`.
pub uninterp spec fn debug_form(text: Seq<char>) -> Seq<char>;

/// Calls `format!` with `{:?}` on a string slice, which is `<str as
/// Debug>::fmt`. The contract gives the literal a name and claims nothing of
/// what it holds.
#[verifier::external_body]
fn debug_text(text: &str) -> (quoted: String)
    ensures
        quoted@ == debug_form(text@),
{
    format!("{:?}", text)
}

/// `String::push` appends one character to the end of the string.
pub assume_specification[ String::push ](text: &mut String, c: char)
    ensures
        final(text)@ == old(text)@.push(c),
;

/// `text` with a backslash put before every occurrence of `mark`.
pub open spec fn escaped(text: Seq<char>, mark: char) -> Seq<char>
    decreases text.len(),
{
    if text.len() == 0 {
        Seq::empty()
    } else if text.last() == mark {
        escaped(text.drop_last(), mark).push('\\').push(mark)
    } else {
        escaped(text.drop_last(), mark).push(text.last())
    }
}

/// The numbers in decimal, separated by a comma and a space.
pub open spec fn numbers_text(numbers: Seq<u32>) -> Seq<char>
    decreases numbers.len(),
{
    if numbers.len() == 0 {
        Seq::empty()
    } else if numbers.len() == 1 {
        decimal(numbers[0] as nat)
    } else {
        numbers_text(numbers.drop_last()) + ", "@ + decimal(numbers.last() as nat)
    }
}

/// How one argument is written.
pub open spec fn argument_text(argument: Argument) -> Seq<char> {
    match argument {
        Argument::Text(text) => debug_form(text@),
        Argument::Number(n) => decimal(n as nat),
        Argument::Numbers(numbers) => "["@ + numbers_text(numbers@) + "]"@,
        Argument::Verbatim(text) => text@,
    }
}

/// The arguments as written between the brackets of a call, separated by a
/// comma and a space.
pub open spec fn arguments_text(arguments: Seq<Argument>) -> Seq<char>
    decreases arguments.len(),
{
    if arguments.len() == 0 {
        Seq::empty()
    } else if arguments.len() == 1 {
        argument_text(arguments[0])
    } else {
        arguments_text(arguments.drop_last()) + ", "@ + argument_text(arguments.last())
    }
}

/// The script that makes the modules under `root` importable, imports
/// `function` from the data access module, and prints what it returns on
/// `arguments`.
pub open spec fn call_script_text(root: Seq<char>, function: Seq<char>, arguments: Seq<Argument>) -> Seq<
    char,
> {
    "import sys; sys.path.append('"@ + root + "'); from db_access import "@ + function
        + "; print("@ + function + "("@ + arguments_text(arguments) + "))"@
}

/// The script that saves the component that lies, as JSON, in `temp_file`,
/// and removes the file.
pub open spec fn save_component_script_text(root: Seq<char>, temp_file: Seq<char>) -> Seq<char> {
    "import sys, json, os; sys.path.append('"@ + root
        + "'); from db_access import save_sql_component; temp_file = '"@ + escaped(
        temp_file,
        '\\',
    )
        + "'; component = json.load(open(temp_file, 'r', encoding='utf-8')); result = save_sql_component(component); print(json.dumps(result)); os.remove(temp_file)"@
}

/// The JSON text of the variables of a run: that of an empty object where
/// none are given.
pub open spec fn variables_text(variables: Option<Seq<char>>) -> Seq<char> {
    match variables {
        Some(json) => json,
        None => "{}"@,
    }
}

/// The script that runs the component `name` with the variables given as
/// JSON text.
pub open spec fn run_component_script_text(
    root: Seq<char>,
    name: Seq<char>,
    variables: Option<Seq<char>>,
) -> Seq<char> {
    "import sys, json; sys.path.append('"@ + root
        + "'); from db_access import run_sql_component; print(run_sql_component("@ + debug_form(
        name,
    ) + ", json.loads('"@ + escaped(variables_text(variables), '\'') + "')))"@
}

/// What a command hands back once its script has run: what it printed where
/// it succeeded, and what it wrote to its error stream where it did not.
pub open spec fn outcome_of(succeeded: bool, printed: String, complained: String) -> Result<
    String,
    String,
> {
    if succeeded {
        Ok(printed)
    } else {
        Err(complained)
    }
}

/// Appends `text` with a backslash before every occurrence of `mark`.
pub fn push_escaped(out: &mut String, text: &str, mark: char)
    ensures
        final(out)@ == old(out)@ + escaped(text@, mark),
{
    let mut rest = text.chars();
    let ghost mut seen: Seq<char> = Seq::empty();
    proof {
        assert(old(out)@ + escaped(seen, mark) =~= old(out)@);
        assert(seen + rest.remaining() =~= text@);
    }
    loop
        invariant_except_break
            text@ == seen + rest.remaining(),
        invariant
            seen.len() <= text@.len(),
            out@ == old(out)@ + escaped(seen, mark),
        ensures
            seen == text@,
        decreases text@.len() - seen.len(),
    {
        let ghost before = rest.remaining();
        let ghost written = out@;
        match rest.next() {
            Some(c) => {
                proof {
                    assert(before =~= seq![c] + rest.remaining());
                    assert(seen.push(c) + rest.remaining() =~= seen + before);
                    assert(seen.push(c).drop_last() =~= seen);
                    assert(seen.push(c).last() == c);
                }
                if c == mark {
                    out.push('\\');
                }
                out.push(c);
                proof {
                    seen = seen.push(c);
                    assert(out@ =~= old(out)@ + escaped(seen, mark));
                }
            },
            None => {
                proof {
                    assert(seen =~= text@);
                }
                break ;
            },
        }
    }
}

/// Appends the numbers in decimal, separated by a comma and a space.
fn push_numbers(out: &mut String, numbers: &Vec<u32>)
    ensures
        final(out)@ == old(out)@ + numbers_text(numbers@),
{
    let n: usize = numbers.len();
    let mut i: usize = 0;
    proof {
        assert(numbers@.take(0) =~= Seq::<u32>::empty());
        assert(old(out)@ + numbers_text(numbers@.take(0)) =~= old(out)@);
    }
    while i < n
        invariant
            i <= n == numbers@.len(),
            out@ == old(out)@ + numbers_text(numbers@.take(i as int)),
        decreases n - i,
    {
        let ghost done = numbers@.take(i as int);
        let ghost next = numbers@.take(i + 1);
        proof {
            assert(next.drop_last() =~= done);
            assert(next.last() == numbers@[i as int]);
        }
        if i > 0 {
            out.append(", ");
        }
        push_decimal(out, numbers[i]);
        proof {
            assert(out@ =~= old(out)@ + numbers_text(next));
        }
        i += 1;
    }
    proof {
        assert(numbers@.take(n as int) =~= numbers@);
    }
}

/// Appends one argument as it is written in a call.
pub fn push_argument(out: &mut String, argument: &Argument)
    ensures
        final(out)@ == old(out)@ + argument_text(*argument),
{
    match argument {
        Argument::Text(text) => {
            let quoted = debug_text(text.as_str());
            out.append(quoted.as_str());
        },
        Argument::Number(n) => {
            push_decimal(out, *n);
        },
        Argument::Numbers(numbers) => {
            out.append("[");
            push_numbers(out, numbers);
            out.append("]");
            proof {
                assert(out@ =~= old(out)@ + ("["@ + numbers_text(numbers@) + "]"@));
            }
        },
        Argument::Verbatim(text) => {
            out.append(text.as_str());
        },
    }
}

/// Appends the arguments of a call, separated by a comma and a space.
fn push_arguments(out: &mut String, arguments: &Vec<Argument>)
    ensures
        final(out)@ == old(out)@ + arguments_text(arguments@),
{
    let n: usize = arguments.len();
    let mut i: usize = 0;
    proof {
        assert(arguments@.take(0) =~= Seq::<Argument>::empty());
        assert(old(out)@ + arguments_text(arguments@.take(0)) =~= old(out)@);
    }
    while i < n
        invariant
            i <= n == arguments@.len(),
            out@ == old(out)@ + arguments_text(arguments@.take(i as int)),
        decreases n - i,
    {
        let ghost done = arguments@.take(i as int);
        let ghost next = arguments@.take(i + 1);
        proof {
            assert(next.drop_last() =~= done);
            assert(next.last() == arguments@[i as int]);
        }
        if i > 0 {
            out.append(", ");
        }
        push_argument(out, &arguments[i]);
        proof {
            assert(out@ =~= old(out)@ + arguments_text(next));
        }
        i += 1;
    }
    proof {
        assert(arguments@.take(n as int) =~= arguments@);
    }
}

/// Builds the script that calls `function` of the data access module under
/// `root` on `arguments` and prints what it returns.
pub fn call_script(root: &str, function: &str, arguments: &Vec<Argument>) -> (script: String)
    ensures
        script@ == call_script_text(root@, function@, arguments@),
{
    let mut script = String::from_str("import sys; sys.path.append('");
    script.append(root);
    script.append("'); from db_access import ");
    script.append(function);
    script.append("; print(");
    script.append(function);
    script.append("(");
    push_arguments(&mut script, arguments);
    script.append("))");
    script
}

/// Builds the script that saves the component written to `temp_file`.
pub fn save_component_script(root: &str, temp_file: &str) -> (script: String)
    ensures
        script@ == save_component_script_text(root@, temp_file@),
{
    let mut script = String::from_str("import sys, json, os; sys.path.append('");
    script.append(root);
    script.append("'); from db_access import save_sql_component; temp_file = '");
    push_escaped(&mut script, temp_file, '\\');
    script.append(
        "'; component = json.load(open(temp_file, 'r', encoding='utf-8')); result = save_sql_component(component); print(json.dumps(result)); os.remove(temp_file)",
    );
    script
}

/// Builds the script that runs the component `name` with `variables`, the
/// JSON text of its variables, if any are given.
pub fn run_component_script(root: &str, name: &str, variables: Option<&str>) -> (script: String)
    ensures
        script@ == run_component_script_text(
            root@,
            name@,
            match variables {
                Some(json) => Some(json@),
                None => None,
            },
        ),
{
    let mut script = String::from_str("import sys, json; sys.path.append('");
    script.append(root);
    script.append("'); from db_access import run_sql_component; print(run_sql_component(");
    let quoted = debug_text(name);
    script.append(quoted.as_str());
    script.append(", json.loads('");
    match variables {
        Some(json) => push_escaped(&mut script, json, '\''),
        None => push_escaped(&mut script, "{}", '\''),
    }
    script.append("')))");
    script
}

/// Decides what a command hands back once its script has run.
pub fn command_outcome(succeeded: bool, printed: String, complained: String) -> (outcome: Result<
    String,
    String,
>)
    ensures
        outcome == outcome_of(succeeded, printed, complained),
{
    if succeeded {
        Ok(printed)
    } else {
        Err(complained)
    }
}

} // verus!
