//! The command-line control surface: its settings and the parser of the bulk
//! latency-test output.
use crate::text::{
    chars_eq, chars_of, find_exec, find_seq, occurs_at, occurs_at_exec, parse_unsigned,
    parse_unsigned_exec, string_of_range, subvec, trim, trim_bounds,
};
use vstd::prelude::*;
use vstd::string::*;

verus! {

/// One parsed result line: policy name, round-trip time in ms, success.
pub type TestLine = (String, Option<u32>, bool);

pub open spec fn test_line_view(r: TestLine) -> (Seq<char>, Option<u32>, bool) {
    (r.0@, r.1, r.2)
}

/// The round-trip time in `rest`, which starts with `RTT`: the number between
/// the fourth character and the first ` ms`.
pub open spec fn rtt_of(rest: Seq<char>) -> Option<u32> {
    match find_seq(rest, " ms"@) {
        Some(m) => if m >= 4 {
            match parse_unsigned(trim(rest.subrange(4, m)), u32::MAX as nat) {
                Some(v) => Some(v as u32),
                None => None,
            }
        } else {
            None
        },
        None => None,
    }
}

/// What one line of the bulk test output says: `"<name>: RTT <n> ms, Total <m> ms"`
/// on success, `"<name>: Failed"` on failure; anything else says nothing.
pub open spec fn test_line_result(line: Seq<char>) -> Option<(Seq<char>, Option<u32>, bool)> {
    let t = trim(line);
    match find_seq(t, ":"@) {
        Some(c) => {
            let name = trim(t.subrange(0, c));
            let rest = trim(t.subrange(c + 1, t.len() as int));
            if rest == "Failed"@ {
                Some((name, None, false))
            } else if occurs_at(rest, "RTT"@, 0) {
                match rtt_of(rest) {
                    Some(v) => Some((name, Some(v), true)),
                    None => None,
                }
            } else {
                None
            }
        },
        None => None,
    }
}

/// The results of the lines of `s` from position `start` on; lines end at `\n`.
pub open spec fn test_output_from(s: Seq<char>, start: int) -> Seq<(Seq<char>, Option<u32>, bool)>
    decreases s.len() - start,
{
    if start < 0 || start > s.len() {
        seq![]
    } else {
        let rest = s.subrange(start, s.len() as int);
        match find_seq(rest, "\n"@) {
            Some(i) => if i < 0 || i >= rest.len() {
                seq![]
            } else {
                let head = match test_line_result(rest.subrange(0, i)) {
                    Some(x) => seq![x],
                    None => seq![],
                };
                head + test_output_from(s, start + i + 1)
            },
            None => match test_line_result(rest) {
                Some(x) => seq![x],
                None => seq![],
            },
        }
    }
}

/// The results of every line of the bulk test output, in order.
pub open spec fn test_output_result(s: Seq<char>) -> Seq<(Seq<char>, Option<u32>, bool)> {
    test_output_from(s, 0)
}

/// Settings of the command-line client.
#[derive(Debug, Clone)]
pub struct SurgeCliClient {
    pub cli_path: String,
}

impl SurgeCliClient {
    /// The default location of the command-line tool.
    pub open spec fn default_path() -> Seq<char> {
        "/Applications/Surge.app/Contents/Applications/surge-cli"@
    }

    pub fn new(cli_path: Option<String>) -> (r: Self)
        ensures
            cli_path matches Some(p) ==> r.cli_path == p,
            cli_path is None ==> r.cli_path@ == Self::default_path(),
    {
        let cli_path = match cli_path {
            Some(p) => p,
            None => String::from_str("/Applications/Surge.app/Contents/Applications/surge-cli"),
        };
        SurgeCliClient { cli_path }
    }

    /// Parses one line of the bulk latency-test output; blank and malformed
    /// lines give `None`.
    pub fn parse_test_line(line: &str) -> (r: Option<TestLine>)
        ensures
            match test_line_result(line@) {
                Some(x) => r is Some && test_line_view(r->0) == x,
                None => r is None,
            },
    {
        proof {
            reveal_strlit(":");
        }
        let v = chars_of(line);
        let (a, b) = trim_bounds(&v);
        let t = subvec(&v, a, b);
        let colon = chars_of(":");
        let c = match find_exec(&t, &colon) {
            Some(c) => c,
            None => {
                return None;
            },
        };
        let head = subvec(&t, 0, c);
        let (x, y) = trim_bounds(&head);
        let name = string_of_range(line, a + x, a + y);
        proof {
            assert(head@.subrange(x as int, y as int) =~= line@.subrange(a + x, a + y));
        }
        let tail = subvec(&t, c + 1, t.len());
        let (p, q) = trim_bounds(&tail);
        let rest = subvec(&tail, p, q);
        let failed = chars_of("Failed");
        if chars_eq(&rest, &failed) {
            return Some((name, None, false));
        }
        let rtt = chars_of("RTT");
        if !occurs_at_exec(&rest, &rtt, 0) {
            return None;
        }
        let ms = chars_of(" ms");
        match find_exec(&rest, &ms) {
            Some(m) => {
                if m < 4 {
                    return None;
                }
                let num = subvec(&rest, 4, m);
                let (u, w) = trim_bounds(&num);
                let digits = subvec(&num, u, w);
                match parse_unsigned_exec(&digits, 4294967295u64) {
                    Some(val) => Some((name, Some(val as u32), true)),
                    None => None,
                }
            },
            None => None,
        }
    }

    /// Parses the whole bulk latency-test output, one result per line that
    /// parses, in order.
    pub fn parse_test_output(output: &str) -> (r: Vec<TestLine>)
        ensures
            r@.map_values(|x: TestLine| test_line_view(x)) == test_output_result(output@),
    {
        proof {
            reveal_strlit("\n");
        }
        let v = chars_of(output);
        let n = v.len();
        let nl = chars_of("\n");
        let mut out: Vec<TestLine> = Vec::new();
        let mut start: usize = 0;
        loop
            invariant
                v@ == output@,
                n == v@.len(),
                nl@ == "\n"@,
                nl@ == seq!['\n'],
                start <= n,
                out@.map_values(|x: TestLine| test_line_view(x)) + test_output_from(
                    output@,
                    start as int,
                ) == test_output_result(output@),
            decreases n - start,
        {
            let rest = subvec(&v, start, n);
            match find_exec(&rest, &nl) {
                Some(i) => {
                    assert(i < rest@.len());
                    assert(rest@ == output@.subrange(start as int, n as int));
                    let line = string_of_range(output, start, start + i);
                    proof {
                        assert(line@ =~= rest@.subrange(0, i as int));
                    }
                    let parsed = Self::parse_test_line(line.as_str());
                    let ghost before = out@.map_values(|x: TestLine| test_line_view(x));
                    match parsed {
                        Some(x) => {
                            out.push(x);
                        },
                        None => {},
                    }
                    proof {
                        assert(out@.map_values(|x: TestLine| test_line_view(x)) =~= before + match test_line_result(rest@.subrange(0, i as int)) {
                            Some(x) => seq![x],
                            None => seq![],
                        });
                    }
                    assert(out@.map_values(|x: TestLine| test_line_view(x)) + test_output_from(
                        output@,
                        (start + i + 1) as int,
                    ) =~= test_output_result(output@));
                    start = start + i + 1;
                },
                None => {
                    let line = string_of_range(output, start, n);
                    let parsed = Self::parse_test_line(line.as_str());
                    let ghost before = out@.map_values(|x: TestLine| test_line_view(x));
                    match parsed {
                        Some(x) => {
                            out.push(x);
                        },
                        None => {},
                    }
                    proof {
                        assert(out@.map_values(|x: TestLine| test_line_view(x)) =~= before + match test_line_result(rest@) {
                            Some(x) => seq![x],
                            None => seq![],
                        });
                    }
                    return out;
                },
            }
        }
    }
}

} // verus!
