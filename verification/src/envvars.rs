//! A report of the environment variables that concern the profiler.

use vstd::prelude::*;
use vstd::string::*;
use crate::text::{join_with, starts_with};

verus! {

/// Whether a variable concerns the profiler: its name begins with
/// `ELASTIC_`, `CORECLR_` or `COR_`.
pub open spec fn is_of_interest(name: Seq<char>) -> bool {
    "ELASTIC_"@.is_prefix_of(name) || "CORECLR_"@.is_prefix_of(name) || "COR_"@.is_prefix_of(name)
}

/// The line that reports one variable: two spaces, the name, `=`, and the
/// value in double quotes.
pub open spec fn env_line(name: Seq<char>, value: Seq<char>) -> Seq<char> {
    "  "@ + name + "=\""@ + value + "\""@
}

/// The lines that report the variables of interest, in the order given.
pub open spec fn env_lines(vars: Seq<(String, String)>) -> Seq<Seq<char>>
    decreases vars.len(),
{
    if vars.len() == 0 {
        Seq::<Seq<char>>::empty()
    } else {
        let before = env_lines(vars.drop_last());
        if is_of_interest(vars.last().0@) {
            before.push(env_line(vars.last().0@, vars.last().1@))
        } else {
            before
        }
    }
}

/// The report mentions a variable if and only if it is of interest, and
/// keeps the order of the variables: line `k` reports the `k`-th variable of
/// interest.
pub proof fn env_lines_are_the_variables_of_interest(vars: Seq<(String, String)>)
    ensures
        env_lines(vars) == vars.filter(|v: (String, String)| is_of_interest(v.0@)).map_values(
            |v: (String, String)| env_line(v.0@, v.1@),
        ),
    decreases vars.len(),
{
    let keep = |v: (String, String)| is_of_interest(v.0@);
    let line = |v: (String, String)| env_line(v.0@, v.1@);
    reveal(Seq::filter);
    if vars.len() == 0 {
        assert(env_lines(vars) =~= vars.filter(keep).map_values(line));
    } else {
        env_lines_are_the_variables_of_interest(vars.drop_last());
        assert(env_lines(vars) =~= vars.filter(keep).map_values(line));
    }
}

/// Whether a variable's name marks it as of interest.
pub fn of_interest(name: &str) -> (r: bool)
    ensures
        r == is_of_interest(name@),
{
    starts_with(name, "ELASTIC_") || starts_with(name, "CORECLR_") || starts_with(name, "COR_")
}

/// Reports the variables of interest among `vars`, pairs of name and value:
/// one line for each, in the order given, joined by a line feed.
pub fn get_env_vars(vars: &Vec<(String, String)>) -> (r: String)
    ensures
        r@ == join_with(env_lines(vars@), '\n'),
{
    let mut out = String::new();
    let mut any = false;
    let mut i: usize = 0;
    assert(vars@.take(0) =~= Seq::<(String, String)>::empty());
    while i < vars.len()
        invariant
            i <= vars.len(),
            any == (env_lines(vars@.take(i as int)).len() > 0),
            out@ == join_with(env_lines(vars@.take(i as int)), '\n'),
        decreases vars.len() - i,
    {
        let ghost before = env_lines(vars@.take(i as int));
        assert(vars@.take(i + 1).drop_last() =~= vars@.take(i as int));
        assert(vars@.take(i + 1).last() == vars@[i as int]);
        let name = vars[i].0.as_str();
        let value = vars[i].1.as_str();
        if of_interest(name) {
            let ghost joined = out@;
            proof {
                reveal_strlit("\n");
            }
            if any {
                out.append("\n");
                assert(out@ =~= joined.push('\n'));
            }
            let ghost start = out@;
            out.append("  ");
            out.append(name);
            out.append("=\"");
            out.append(value);
            out.append("\"");
            assert(out@ =~= start + env_line(name@, value@));
            assert(before.push(env_line(name@, value@)).drop_last() =~= before);
            any = true;
        }
        i += 1;
    }
    assert(vars@.take(i as int) =~= vars@);
    out
}

} // verus!
