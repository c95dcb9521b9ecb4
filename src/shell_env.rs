use vstd::prelude::*;
use vstd::string::*;
use crate::text::same_text;

verus! {

/// Printed by the login shell just before its environment, so that whatever
/// the shell's startup files print first can be told apart from it.
pub const LOGIN_SHELL_MARKER: &'static str = "ZED_LOGIN_SHELL_START";

/// The command that the login shell runs: change to the home directory when
/// it is known (so that tools hooking `cd` adjust the environment), print the
/// marker, print the environment, and exit with success.
pub open spec fn login_shell_command_text(home: Option<Seq<char>>) -> Seq<char> {
    let prefix = match home {
        Some(h) => "cd '"@ + h + "';"@,
        None => Seq::empty(),
    };
    prefix + "printf '%s' "@ + LOGIN_SHELL_MARKER@ + "; /usr/bin/env; exit 0;"@
}

/// The arguments that the user's shell is started with to read the login
/// environment: a login, interactive shell running `login_shell_command_text`.
pub fn login_shell_args(home: Option<&str>) -> (r: Vec<String>)
    ensures
        r@.len() == 4,
        r@[0]@ == "-l"@,
        r@[1]@ == "-i"@,
        r@[2]@ == "-c"@,
        r@[3]@ == login_shell_command_text(
            match home {
                Some(h) => Some(h@),
                None => None,
            },
        ),
{
    let mut command = String::new();
    match home {
        Some(h) => {
            command.append("cd '");
            command.append(h);
            command.append("';");
        },
        None => {},
    }
    command.append("printf '%s' ");
    command.append(LOGIN_SHELL_MARKER);
    command.append("; /usr/bin/env; exit 0;");
    let mut args: Vec<String> = Vec::new();
    args.push(String::from_str("-l"));
    args.push(String::from_str("-i"));
    args.push(String::from_str("-c"));
    args.push(command);
    proof {
        let expected = login_shell_command_text(
            match home {
                Some(h) => Some(h@),
                None => None,
            },
        );
        assert(args@[3]@ =~= expected);
    }
    args
}

/// Whether `m` occurs in `s` starting at position `i`.
pub open spec fn occurs_at(s: Seq<char>, m: Seq<char>, i: int) -> bool {
    0 <= i && i + m.len() <= s.len() && s.subrange(i, i + m.len()) == m
}

/// Whether position `i` is the first at which `m` occurs in `s`.
pub open spec fn first_occurrence(s: Seq<char>, m: Seq<char>, i: int) -> bool {
    occurs_at(s, m, i) && forall|j: int| 0 <= j < i ==> !occurs_at(s, m, j)
}

/// The environment listing in the login shell's output: what follows the
/// first occurrence of the marker, or `None` where the marker is missing.
pub fn env_output_after_marker(output: &str) -> (r: Option<&str>)
    ensures
        match r {
            Some(rest) => exists|i: int|
                first_occurrence(output@, LOGIN_SHELL_MARKER@, i) && rest@ == output@.subrange(
                    i + LOGIN_SHELL_MARKER@.len(),
                    output@.len() as int,
                ),
            None => forall|i: int| !occurs_at(output@, LOGIN_SHELL_MARKER@, i),
        },
{
    let marker = LOGIN_SHELL_MARKER;
    let n = output.unicode_len();
    let k = marker.unicode_len();
    proof {
        reveal_strlit("ZED_LOGIN_SHELL_START");
    }
    assert(k > 0);
    if k > n {
        return None;
    }
    let mut i: usize = 0;
    while i <= n - k
        invariant
            n == output@.len(),
            k == marker@.len(),
            marker@ == LOGIN_SHELL_MARKER@,
            0 < k <= n,
            i <= n - k + 1,
            forall|j: int| 0 <= j < i ==> !occurs_at(output@, marker@, j),
        decreases n - k + 1 - i,
    {
        let window = output.substring_char(i, i + k);
        if same_text(window, marker) {
            let rest = output.substring_char(i + k, n);
            assert(first_occurrence(output@, marker@, i as int));
            return Some(rest);
        }
        i = i + 1;
    }
    None
}

} // verus!
