//! Parsers for proc-fs text a libvirt-run VM leaves behind.

use vstd::prelude::*;

use crate::error::CzError;

verus! {

/// What the proc filesystem reveals about a libvirt-managed VM process.
#[derive(Debug)]
pub struct LibvirtInfo {
    pub vm_id: u32,
    pub vm_name: String,
    pub vm_cgroup: String,
}

/// An ASCII whitespace character, as found at the end of a proc-fs line.
pub open spec fn is_space(c: char) -> bool {
    c == ' ' || c == '\t' || c == '\n' || c == '\r'
}

/// `s` with every leading cgroup-v2 marker `0::` removed.
pub open spec fn spec_strip_cg_prefix(s: Seq<char>) -> Seq<char>
    decreases s.len(),
{
    if s.len() >= 3 && s.take(3) == "0::"@ {
        spec_strip_cg_prefix(s.skip(3))
    } else {
        s
    }
}

/// `s` with trailing whitespace removed.
pub open spec fn spec_trim_end_ws(s: Seq<char>) -> Seq<char>
    decreases s.len(),
{
    if s.len() > 0 && is_space(s.last()) {
        spec_trim_end_ws(s.drop_last())
    } else {
        s
    }
}

/// `s` with every trailing `/emulator` segment removed.
pub open spec fn spec_strip_emulator(s: Seq<char>) -> Seq<char>
    decreases s.len(),
{
    if s.len() >= 9 && s.skip(s.len() - 9) == "/emulator"@ {
        spec_strip_emulator(s.take(s.len() - 9))
    } else {
        s
    }
}

/// The cgroup path of the VM itself, read from a process's `cgroup` line:
/// the `0::` marker and the trailing `/emulator` leaf are stripped.
pub fn parse_libvirt_cgroup(cgroup: &str) -> (r: Result<String, CzError>)
    ensures
        r matches Ok(t) && t@ == spec_strip_emulator(
            spec_trim_end_ws(spec_strip_cg_prefix(cgroup@)),
        ),
{
    let n = cgroup.unicode_len();
    proof {
        reveal_strlit("0::");
        reveal_strlit("/emulator");
    }
    let mut start: usize = 0;
    proof {
        assert(cgroup@.skip(0) =~= cgroup@);
    }
    while n - start >= 3 && cgroup.get_char(start) == '0' && cgroup.get_char(start + 1) == ':'
        && cgroup.get_char(start + 2) == ':'
        invariant
            start <= n,
            n == cgroup@.len(),
            spec_strip_cg_prefix(cgroup@) == spec_strip_cg_prefix(cgroup@.skip(start as int)),
        decreases n - start,
    {
        proof {
            reveal_strlit("0::");
            assert(cgroup@.skip(start as int).take(3) =~= "0::"@);
            assert(cgroup@.skip(start as int).skip(3) =~= cgroup@.skip(start + 3));
        }
        start += 3;
    }
    proof {
        reveal_strlit("0::");
        if cgroup@.skip(start as int).len() >= 3 {
            assert(cgroup@.skip(start as int).take(3) != "0::"@) by {
                if cgroup@.skip(start as int).take(3) == "0::"@ {
                    assert(cgroup@.skip(start as int).take(3)[0] == '0');
                    assert(cgroup@.skip(start as int).take(3)[1] == ':');
                    assert(cgroup@.skip(start as int).take(3)[2] == ':');
                }
            }
        }
        assert(spec_strip_cg_prefix(cgroup@) == cgroup@.skip(start as int));
        assert(cgroup@.skip(start as int) =~= cgroup@.subrange(start as int, n as int));
    }
    let ghost stripped = cgroup@.subrange(start as int, n as int);
    let mut end: usize = n;
    while end > start && (cgroup.get_char(end - 1) == ' ' || cgroup.get_char(end - 1) == '\t'
        || cgroup.get_char(end - 1) == '\n' || cgroup.get_char(end - 1) == '\r')
        invariant
            start <= end <= n,
            n == cgroup@.len(),
            stripped == cgroup@.subrange(start as int, n as int),
            spec_trim_end_ws(stripped) == spec_trim_end_ws(
                cgroup@.subrange(start as int, end as int),
            ),
        decreases end,
    {
        proof {
            assert(cgroup@.subrange(start as int, end as int).last() == cgroup@[end - 1]);
            assert(cgroup@.subrange(start as int, end as int).drop_last() =~= cgroup@.subrange(
                start as int,
                end - 1,
            ));
        }
        end -= 1;
    }
    proof {
        assert(spec_trim_end_ws(stripped) == cgroup@.subrange(start as int, end as int));
    }
    let ghost trimmed = cgroup@.subrange(start as int, end as int);
    let mut tail: usize = end;
    while tail - start >= 9 && cgroup.get_char(tail - 9) == '/' && cgroup.get_char(tail - 8) == 'e'
        && cgroup.get_char(tail - 7) == 'm' && cgroup.get_char(tail - 6) == 'u' && cgroup.get_char(
        tail - 5,
    ) == 'l' && cgroup.get_char(tail - 4) == 'a' && cgroup.get_char(tail - 3) == 't'
        && cgroup.get_char(tail - 2) == 'o' && cgroup.get_char(tail - 1) == 'r'
        invariant
            start <= tail <= end <= n,
            n == cgroup@.len(),
            trimmed == cgroup@.subrange(start as int, end as int),
            spec_strip_emulator(trimmed) == spec_strip_emulator(
                cgroup@.subrange(start as int, tail as int),
            ),
        decreases tail,
    {
        proof {
            reveal_strlit("/emulator");
            let cur = cgroup@.subrange(start as int, tail as int);
            assert(cur.skip(cur.len() - 9) =~= "/emulator"@);
            assert(cur.take(cur.len() - 9) =~= cgroup@.subrange(start as int, tail - 9));
        }
        tail -= 9;
    }
    proof {
        reveal_strlit("/emulator");
        let cur = cgroup@.subrange(start as int, tail as int);
        if cur.len() >= 9 {
            assert(cur.skip(cur.len() - 9) != "/emulator"@) by {
                if cur.skip(cur.len() - 9) == "/emulator"@ {
                    assert(cur.skip(cur.len() - 9)[0] == '/');
                    assert(cur.skip(cur.len() - 9)[1] == 'e');
                    assert(cur.skip(cur.len() - 9)[2] == 'm');
                    assert(cur.skip(cur.len() - 9)[3] == 'u');
                    assert(cur.skip(cur.len() - 9)[4] == 'l');
                    assert(cur.skip(cur.len() - 9)[5] == 'a');
                    assert(cur.skip(cur.len() - 9)[6] == 't');
                    assert(cur.skip(cur.len() - 9)[7] == 'o');
                    assert(cur.skip(cur.len() - 9)[8] == 'r');
                }
            }
        }
        assert(spec_strip_emulator(trimmed) == cur);
    }
    Ok(String::from_str(cgroup.substring_char(start, tail)))
}

} // verus!
