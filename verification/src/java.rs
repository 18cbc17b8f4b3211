//! Java runtimes from Adoptium: where a runtime of a major version lives,
//! where its archive is fetched from and stored, and where each archive entry
//! is unpacked (below the runtime folder, without the archive's top folder).

use vstd::prelude::*;
use crate::paths;
use crate::rules::{HostArch, HostOs, Platform};
use crate::text;

verus! {

/// Adoptium's name of an operating system.
pub open spec fn adoptium_os(os: HostOs) -> Seq<char> {
    match os {
        HostOs::Windows => "windows"@,
        HostOs::MacOs => "mac"@,
        HostOs::Linux => "linux"@,
    }
}

/// Adoptium's name of an architecture; an unknown one is taken as `x64`.
pub open spec fn adoptium_arch(arch: HostArch) -> Seq<char> {
    match arch {
        HostArch::X86_64 => "x64"@,
        HostArch::Aarch64 => "aarch64"@,
        HostArch::X86 => "x86"@,
        HostArch::Other => "x64"@,
    }
}

/// The file name of the Java binary.
pub open spec fn java_binary_name(os: HostOs) -> Seq<char> {
    if os == HostOs::Windows {
        "java.exe"@
    } else {
        "java"@
    }
}

/// The archive format Adoptium serves for an operating system.
pub open spec fn archive_extension(os: HostOs) -> Seq<char> {
    if os == HostOs::Windows {
        "zip"@
    } else {
        "tar.gz"@
    }
}

/// The download of the newest JRE of a major version.
pub open spec fn adoptium_url(major: u32, platform: Platform) -> Seq<char> {
    "https://api.adoptium.net/v3/binary/latest/"@ + text::decimal(major as nat) + "/ga/"@
        + adoptium_os(platform.os) + "/"@ + adoptium_arch(platform.arch)
        + "/jre/hotspot/normal/eclipse"@
}

/// The segments of a `/`-separated path that name something: empty ones
/// and `.` are left out.
pub open spec fn named_segments(segs: Seq<Seq<char>>) -> Seq<Seq<char>>
    decreases segs.len(),
{
    if segs.len() == 0 {
        seq![]
    } else {
        let r = named_segments(segs.drop_last());
        let s = segs.last();
        if s.len() == 0 || s == "."@ {
            r
        } else {
            r.push(s)
        }
    }
}

/// The components of a path as `Path::components` yields them: the root
/// first for an absolute path, a leading `.` kept, then every named segment.
pub open spec fn path_components(p: Seq<char>) -> Seq<Seq<char>> {
    let segs = text::split_char(p, '/');
    let rest = named_segments(segs);
    if p.len() > 0 && p[0] == '/' {
        seq!["/"@] + rest
    } else if segs[0] == "."@ {
        seq!["."@] + rest
    } else {
        rest
    }
}

/// Components joined by `/`.
pub open spec fn joined(c: Seq<Seq<char>>) -> Seq<char>
    decreases c.len(),
{
    if c.len() == 0 {
        seq![]
    } else if c.len() == 1 {
        c[0]
    } else {
        joined(c.drop_last()) + "/"@ + c.last()
    }
}

/// An archive entry's path without its first component; `None` when nothing
/// is left.
pub open spec fn without_top(p: Seq<char>) -> Option<Seq<char>> {
    let c = path_components(p);
    if c.len() <= 1 {
        None
    } else {
        Some(joined(c.drop_first()))
    }
}

pub struct AdoptiumInstaller;

impl AdoptiumInstaller {
    pub fn os_name(platform: Platform) -> (r: &'static str)
        ensures
            r@ == adoptium_os(platform.os),
    {
        match platform.os {
            HostOs::Windows => "windows",
            HostOs::MacOs => "mac",
            HostOs::Linux => "linux",
        }
    }

    pub fn arch_name(platform: Platform) -> (r: &'static str)
        ensures
            r@ == adoptium_arch(platform.arch),
    {
        match platform.arch {
            HostArch::X86_64 => "x64",
            HostArch::Aarch64 => "aarch64",
            HostArch::X86 => "x86",
            HostArch::Other => "x64",
        }
    }

    /// The Java binary of a runtime folder: `bin/java`, `bin/java.exe` on
    /// Windows.
    pub fn java_executable(runtime_dir: &str, platform: Platform) -> (r: String)
        ensures
            r@ == paths::path_join(
                paths::path_join(runtime_dir@, "bin"@),
                java_binary_name(platform.os),
            ),
    {
        proof {
            reveal_strlit("bin");
            reveal_strlit("java.exe");
            reveal_strlit("java");
        }
        let bin = paths::join(runtime_dir, "bin");
        if platform.os == HostOs::Windows {
            paths::join(bin.as_str(), "java.exe")
        } else {
            paths::join(bin.as_str(), "java")
        }
    }

    /// The folder of the runtime of a major version: `java<major>` below the
    /// runtimes folder.
    pub fn runtime_dir(runtimes_dir: &str, major: u32) -> (r: String)
        ensures
            r@ == paths::path_join(runtimes_dir@, "java"@ + text::decimal(major as nat)),
    {
        proof {
            reveal_strlit("java");
        }
        let mut name = text::owned("java");
        text::push_decimal(&mut name, major as u64);
        paths::join(runtimes_dir, name.as_str())
    }

    /// Where the runtime archive is stored: the runtime folder with the
    /// archive's extension.
    pub fn archive_path(runtime_dir: &str, platform: Platform) -> (r: String)
        ensures
            r@ == paths::with_extension(runtime_dir@, archive_extension(platform.os)),
    {
        proof {
            reveal_strlit("zip");
            reveal_strlit("tar.gz");
        }
        if platform.os == HostOs::Windows {
            paths::replace_extension(runtime_dir, "zip")
        } else {
            paths::replace_extension(runtime_dir, "tar.gz")
        }
    }

    /// The Adoptium download of the newest JRE of a major version.
    pub fn download_url(major: u32, platform: Platform) -> (r: String)
        ensures
            r@ == adoptium_url(major, platform),
    {
        proof {
            reveal_strlit("https://api.adoptium.net/v3/binary/latest/");
            reveal_strlit("/ga/");
            reveal_strlit("/");
            reveal_strlit("/jre/hotspot/normal/eclipse");
        }
        let mut s = text::owned("https://api.adoptium.net/v3/binary/latest/");
        text::push_decimal(&mut s, major as u64);
        s.append("/ga/");
        s.append(Self::os_name(platform));
        s.append("/");
        s.append(Self::arch_name(platform));
        s.append("/jre/hotspot/normal/eclipse");
        s
    }

    /// Where an archive entry is unpacked: its path without the archive's
    /// top folder, below the runtime folder; `None` for the top folder
    /// itself, which is skipped.
    #[verifier::loop_isolation(false)]
    pub fn entry_target(runtime_dir: &str, entry_path: &str) -> (r: Option<String>)
        ensures
            match without_top(entry_path@) {
                None => r is None,
                Some(rel) => r matches Some(t) && t@ == paths::path_join(runtime_dir@, rel),
            },
    {
        let v = text::chars_of(entry_path);
        let segs = text::split_chars(&v, '/');
        let ghost sv = segs@.map_values(|p: Vec<char>| p@);
        proof {
            reveal_strlit(".");
            reveal_strlit("/");
        }
        let dot: Vec<char> = vec!['.'];
        assert(dot@ =~= "."@);
        let mut named: Vec<Vec<char>> = Vec::new();
        let n: usize = segs.len();
        let mut i: usize = 0;
        while i < n
            invariant
                n == segs@.len(),
                i <= n,
                sv == segs@.map_values(|p: Vec<char>| p@),
                dot@ == "."@,
                named@.map_values(|p: Vec<char>| p@) == named_segments(sv.subrange(0, i as int)),
            decreases n - i,
        {
            let ghost before = named@;
            assert(sv.subrange(0, i + 1).drop_last() =~= sv.subrange(0, i as int));
            assert(sv.subrange(0, i + 1).last() == segs@[i as int]@);
            let seg = &segs[i];
            let is_dot = seg.len() == 1 && seg[0] == '.';
            assert(is_dot == (seg@ =~= "."@)) by {
                if seg@.len() == 1 {
                    assert(seg@ =~= seq![seg@[0]]);
                }
            }
            if seg.len() > 0 && !is_dot {
                named.push(seg.clone());
                assert(named@.map_values(|p: Vec<char>| p@) =~= before.map_values(
                    |p: Vec<char>| p@,
                ).push(seg@));
            }
            i = i + 1;
        }
        assert(sv.subrange(0, n as int) =~= sv);
        let ghost rest = named_segments(sv);
        let ghost comps = path_components(entry_path@);
        // The components after the first one.
        let absolute = v.len() > 0 && v[0] == '/';
        let first_dot = segs[0].len() == 1 && segs[0][0] == '.';
        assert(first_dot == (sv[0] =~= "."@)) by {
            if sv[0].len() == 1 {
                assert(sv[0] =~= seq![sv[0][0]]);
            }
        }
        // Index in `named` of the first component kept after the top one.
        let start: usize = if absolute || first_dot {
            0
        } else {
            1
        };
        assert(comps.len() == rest.len() + 1 - start);
        if named.len() <= start {
            return None;
        }
        assert(comps.drop_first() =~= rest.subrange(start as int, rest.len() as int));
        let mut rel = String::new();
        let mut j: usize = start;
        let m: usize = named.len();
        while j < m
            invariant
                m == named@.len(),
                start < m,
                start <= j <= m,
                named@.map_values(|p: Vec<char>| p@) == rest,
                rel@ == joined(rest.subrange(start as int, j as int)),
            decreases m - j,
        {
            let ghost part = rest.subrange(start as int, j + 1);
            assert(part.drop_last() =~= rest.subrange(start as int, j as int));
            assert(part.last() == named@[j as int]@);
            if j > start {
                text::push_char(&mut rel, '/');
            }
            text::push_chars(&mut rel, &named[j]);
            proof {
                if j == start {
                    assert(rel@ =~= part[0]);
                } else {
                    assert(rel@ =~= joined(part.drop_last()) + "/"@ + part.last());
                }
            }
            j = j + 1;
        }
        Some(paths::join(runtime_dir, rel.as_str()))
    }
}

} // verus!
