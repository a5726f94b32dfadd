use vstd::prelude::*;

verus! {

/// A build target for which platform artifacts were compiled upstream.
#[derive(Clone, Copy, Debug, PartialEq, Eq, Structural)]
pub enum Target {
    X8664UnknownLinuxGnu,
    X8664UnknownLinuxMusl,
    X8664AppleDarwin,
    AArch64AppleDarwin,
    X8664PcWindowsMsvc,
    X8664PcWindowsGnu,
}

/// Why the catalog could not answer for a target.
#[derive(Clone, Copy, Debug, PartialEq, Eq, Structural)]
pub enum CatalogError {
    /// The identifier names no target known to the catalog.
    NotFound,
    /// The target is known but has no packaging-architecture label.
    Unsupported,
}

/// The identifier of a target, as used for directory and artifact names.
pub open spec fn target_id(t: Target) -> Seq<char> {
    match t {
        Target::X8664UnknownLinuxGnu => "x86_64-unknown-linux-gnu"@,
        Target::X8664UnknownLinuxMusl => "x86_64-unknown-linux-musl"@,
        Target::X8664AppleDarwin => "x86_64-apple-darwin"@,
        Target::AArch64AppleDarwin => "aarch64-apple-darwin"@,
        Target::X8664PcWindowsMsvc => "x86_64-pc-windows-msvc"@,
        Target::X8664PcWindowsGnu => "x86_64-pc-windows-gnu"@,
    }
}

/// The target whose identifier is `s`, if any.
pub open spec fn target_of_id(s: Seq<char>) -> Option<Target> {
    if s == target_id(Target::X8664UnknownLinuxGnu) {
        Some(Target::X8664UnknownLinuxGnu)
    } else if s == target_id(Target::X8664UnknownLinuxMusl) {
        Some(Target::X8664UnknownLinuxMusl)
    } else if s == target_id(Target::X8664AppleDarwin) {
        Some(Target::X8664AppleDarwin)
    } else if s == target_id(Target::AArch64AppleDarwin) {
        Some(Target::AArch64AppleDarwin)
    } else if s == target_id(Target::X8664PcWindowsMsvc) {
        Some(Target::X8664PcWindowsMsvc)
    } else if s == target_id(Target::X8664PcWindowsGnu) {
        Some(Target::X8664PcWindowsGnu)
    } else {
        None
    }
}

pub open spec fn is_linux(t: Target) -> bool {
    t == Target::X8664UnknownLinuxGnu || t == Target::X8664UnknownLinuxMusl
}

pub open spec fn is_darwin(t: Target) -> bool {
    t == Target::X8664AppleDarwin || t == Target::AArch64AppleDarwin
}

/// File name of the command-line executable.
pub open spec fn cli_file_name(t: Target) -> Seq<char> {
    if is_linux(t) || is_darwin(t) {
        "tangram"@
    } else {
        "tangram.exe"@
    }
}

/// File name of the C header.
pub open spec fn header_file_name(t: Target) -> Seq<char> {
    "tangram.h"@
}

/// File name of the dynamic library.
pub open spec fn dynamic_library_file_name(t: Target) -> Seq<char> {
    if is_linux(t) {
        "libtangram.so"@
    } else if is_darwin(t) {
        "libtangram.dylib"@
    } else {
        "tangram.dll"@
    }
}

/// File name of the static library.
pub open spec fn static_library_file_name(t: Target) -> Seq<char> {
    if t == Target::X8664PcWindowsMsvc {
        "tangram.lib"@
    } else {
        "libtangram.a"@
    }
}

/// Debian architecture label of a target; only the portable static-linked Linux target has one.
pub open spec fn debian_architecture(t: Target) -> Option<Seq<char>> {
    if t == Target::X8664UnknownLinuxMusl {
        Some("amd64"@)
    } else {
        None
    }
}

/// RPM architecture label of a target; only the portable static-linked Linux target has one.
pub open spec fn rpm_architecture(t: Target) -> Option<Seq<char>> {
    if t == Target::X8664UnknownLinuxMusl {
        Some("x86_64"@)
    } else {
        None
    }
}

/// The expected output file names of one target, one per role.
#[derive(Clone, Debug)]
pub struct TargetFileNames {
    pub cli_file_name: String,
    pub header_file_name: String,
    pub dynamic_library_file_name: String,
    pub static_library_file_name: String,
}

impl TargetFileNames {
    /// The names held are those of `t`.
    pub open spec fn are_of(&self, t: Target) -> bool {
        &&& self.cli_file_name@ == cli_file_name(t)
        &&& self.header_file_name@ == header_file_name(t)
        &&& self.dynamic_library_file_name@ == dynamic_library_file_name(t)
        &&& self.static_library_file_name@ == static_library_file_name(t)
    }

    /// The names as a set.
    pub open spec fn name_set(&self) -> Set<Seq<char>> {
        set![
            self.cli_file_name@,
            self.header_file_name@,
            self.dynamic_library_file_name@,
            self.static_library_file_name@,
        ]
    }
}

impl Target {
    /// Every target of the catalog, in release order.
    pub fn all() -> (r: Vec<Target>)
        ensures
            r@ == all_targets(),
    {
        vec![
            Target::X8664UnknownLinuxGnu,
            Target::X8664UnknownLinuxMusl,
            Target::X8664AppleDarwin,
            Target::AArch64AppleDarwin,
            Target::X8664PcWindowsMsvc,
            Target::X8664PcWindowsGnu,
        ]
    }

    pub fn as_str(&self) -> (r: &'static str)
        ensures
            r@ == target_id(*self),
    {
        match self {
            Target::X8664UnknownLinuxGnu => "x86_64-unknown-linux-gnu",
            Target::X8664UnknownLinuxMusl => "x86_64-unknown-linux-musl",
            Target::X8664AppleDarwin => "x86_64-apple-darwin",
            Target::AArch64AppleDarwin => "aarch64-apple-darwin",
            Target::X8664PcWindowsMsvc => "x86_64-pc-windows-msvc",
            Target::X8664PcWindowsGnu => "x86_64-pc-windows-gnu",
        }
    }

    /// Looks up a target by its identifier.
    pub fn from_id(s: &str) -> (r: Result<Target, CatalogError>)
        ensures
            match target_of_id(s@) {
                Some(t) => r == Ok::<Target, CatalogError>(t),
                None => r == Err::<Target, CatalogError>(CatalogError::NotFound),
            },
    {
        let all = Target::all();
        let mut i: usize = 0;
        while i < all.len()
            invariant
                all@ == all_targets(),
                0 <= i <= all.len(),
                forall|j: int| 0 <= j < i ==> target_id(#[trigger] all_targets()[j]) != s@,
            decreases all.len() - i,
        {
            let t = all[i];
            if str_eq(t.as_str(), s) {
                proof { lemma_target_of_id(t); }
                return Ok(t);
            }
            i = i + 1;
        }
        proof {
            if let Some(t) = target_of_id(s@) {
                lemma_target_of_id(t);
                lemma_all_targets_complete(t);
                let j = choose|j: int| 0 <= j < 6 && all_targets()[j] == t;
                assert(target_id(all_targets()[j]) != s@);
            }
        }
        Err(CatalogError::NotFound)
    }
}

pub open spec fn all_targets() -> Seq<Target> {
    seq![
        Target::X8664UnknownLinuxGnu,
        Target::X8664UnknownLinuxMusl,
        Target::X8664AppleDarwin,
        Target::AArch64AppleDarwin,
        Target::X8664PcWindowsMsvc,
        Target::X8664PcWindowsGnu,
    ]
}

proof fn lemma_all_targets_complete(t: Target)
    ensures
        exists|j: int| 0 <= j < 6 && all_targets()[j] == t,
{
    match t {
        Target::X8664UnknownLinuxGnu => assert(all_targets()[0] == t),
        Target::X8664UnknownLinuxMusl => assert(all_targets()[1] == t),
        Target::X8664AppleDarwin => assert(all_targets()[2] == t),
        Target::AArch64AppleDarwin => assert(all_targets()[3] == t),
        Target::X8664PcWindowsMsvc => assert(all_targets()[4] == t),
        Target::X8664PcWindowsGnu => assert(all_targets()[5] == t),
    }
}

/// Distinct targets have distinct identifiers, so an identifier names its target.
proof fn lemma_target_of_id(t: Target)
    ensures
        target_of_id(target_id(t)) == Some(t),
{
    reveal_strlit("x86_64-unknown-linux-gnu");
    reveal_strlit("x86_64-unknown-linux-musl");
    reveal_strlit("x86_64-apple-darwin");
    reveal_strlit("aarch64-apple-darwin");
    reveal_strlit("x86_64-pc-windows-msvc");
    reveal_strlit("x86_64-pc-windows-gnu");
    assert(target_id(Target::X8664UnknownLinuxGnu).len() == 24);
    assert(target_id(Target::X8664UnknownLinuxMusl).len() == 25);
    assert(target_id(Target::X8664AppleDarwin).len() == 19);
    assert(target_id(Target::AArch64AppleDarwin).len() == 20);
    assert(target_id(Target::X8664PcWindowsMsvc).len() == 22);
    assert(target_id(Target::X8664PcWindowsGnu).len() == 21);
}

/// The expected output file names of a target.
pub fn target_file_names(t: Target) -> (r: TargetFileNames)
    ensures
        r.are_of(t),
{
    let cli = match t {
        Target::X8664PcWindowsMsvc | Target::X8664PcWindowsGnu => "tangram.exe",
        _ => "tangram",
    };
    let dynamic = match t {
        Target::X8664UnknownLinuxGnu | Target::X8664UnknownLinuxMusl => "libtangram.so",
        Target::X8664AppleDarwin | Target::AArch64AppleDarwin => "libtangram.dylib",
        _ => "tangram.dll",
    };
    let static_ = match t {
        Target::X8664PcWindowsMsvc => "tangram.lib",
        _ => "libtangram.a",
    };
    TargetFileNames {
        cli_file_name: String::from_str(cli),
        header_file_name: String::from_str("tangram.h"),
        dynamic_library_file_name: String::from_str(dynamic),
        static_library_file_name: String::from_str(static_),
    }
}

/// Looks up the expected output file names of the target named by an identifier.
pub fn file_names_for(id: &str) -> (r: Result<TargetFileNames, CatalogError>)
    ensures
        match target_of_id(id@) {
            Some(t) => r is Ok && r->Ok_0.are_of(t),
            None => r == Err::<TargetFileNames, CatalogError>(CatalogError::NotFound),
        },
{
    match Target::from_id(id) {
        Ok(t) => Ok(target_file_names(t)),
        Err(e) => Err(e),
    }
}

/// The Debian architecture label of a target.
pub fn debian_architecture_for(t: Target) -> (r: Result<&'static str, CatalogError>)
    ensures
        match debian_architecture(t) {
            Some(a) => r is Ok && r->Ok_0@ == a,
            None => r == Err::<&'static str, CatalogError>(CatalogError::Unsupported),
        },
{
    match t {
        Target::X8664UnknownLinuxMusl => Ok("amd64"),
        _ => Err(CatalogError::Unsupported),
    }
}

/// The RPM architecture label of a target.
pub fn rpm_architecture_for(t: Target) -> (r: Result<&'static str, CatalogError>)
    ensures
        match rpm_architecture(t) {
            Some(a) => r is Ok && r->Ok_0@ == a,
            None => r == Err::<&'static str, CatalogError>(CatalogError::Unsupported),
        },
{
    match t {
        Target::X8664UnknownLinuxMusl => Ok("x86_64"),
        _ => Err(CatalogError::Unsupported),
    }
}

/// Every target of the catalog has four non-empty expected file names, one per role, no two
/// of them alike.
pub proof fn lemma_file_names_distinct(t: Target)
    ensures
        cli_file_name(t).len() > 0,
        header_file_name(t).len() > 0,
        dynamic_library_file_name(t).len() > 0,
        static_library_file_name(t).len() > 0,
        cli_file_name(t) != header_file_name(t),
        cli_file_name(t) != dynamic_library_file_name(t),
        cli_file_name(t) != static_library_file_name(t),
        header_file_name(t) != dynamic_library_file_name(t),
        header_file_name(t) != static_library_file_name(t),
        dynamic_library_file_name(t) != static_library_file_name(t),
{
    reveal_strlit("tangram");
    reveal_strlit("tangram.exe");
    reveal_strlit("tangram.h");
    reveal_strlit("libtangram.so");
    reveal_strlit("libtangram.dylib");
    reveal_strlit("tangram.dll");
    reveal_strlit("tangram.lib");
    reveal_strlit("libtangram.a");
    assert("tangram"@.len() == 7);
    assert("tangram.h"@.len() == 9);
    assert("libtangram.so"@.len() == 13);
    assert("libtangram.dylib"@.len() == 16);
    assert("libtangram.a"@.len() == 12);
    assert("tangram.dll"@[8] != "tangram.lib"@[8]);
    assert("tangram.exe"@[8] != "tangram.lib"@[8]);
    assert("tangram.exe"@[8] != "tangram.dll"@[8]);
}

/// The names that the catalog gives a target, as a set, are four names: non-empty, none
/// repeated across roles.
pub proof fn lemma_file_name_set(t: Target, names: TargetFileNames)
    requires
        names.are_of(t),
    ensures
        names.name_set().len() == 4,
        forall|n: Seq<char>| #[trigger] names.name_set().contains(n) ==> n.len() > 0,
{
    lemma_file_names_distinct(t);
    let a = names.cli_file_name@;
    let b = names.header_file_name@;
    let c = names.dynamic_library_file_name@;
    let d = names.static_library_file_name@;
    assert(set![a, b, c, d] == set![a].insert(b).insert(c).insert(d));
    assert(set![a].len() == 1) by {
        assert(set![a] == Set::<Seq<char>>::empty().insert(a));
    }
}

/// Character-wise equality of two strings.
pub fn str_eq(a: &str, b: &str) -> (r: bool)
    ensures
        r == (a@ == b@),
{
    let n = a.unicode_len();
    if n != b.unicode_len() {
        return false;
    }
    let mut i: usize = 0;
    while i < n
        invariant
            n == a@.len() == b@.len(),
            0 <= i <= n,
            forall|j: int| 0 <= j < i ==> a@[j] == b@[j],
        decreases n - i,
    {
        if a.get_char(i) != b.get_char(i) {
            return false;
        }
        i = i + 1;
    }
    assert(a@ =~= b@);
    true
}

} // verus!
