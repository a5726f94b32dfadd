use vstd::prelude::*;

verus! {

/// The Debian control file.
pub open spec fn control_text(arch: Seq<char>, version: Seq<char>) -> Seq<char> {
    "Package: tangram\nArchitecture: "@ + arch + "\nVersion: "@ + version
        + "\nMaintainer: Tangram <root@tangram.xyz>\nHomepage: https://www.tangram.xyz\nDescription: Tangram is an automated machine learning framework designed for programmers.\n"@
}

/// The RPM spec file.
pub open spec fn spec_file_text(version: Seq<char>) -> Seq<char> {
    "Name: tangram\nVersion: "@ + version
        + "\nRelease: 1\nSummary: Tangram is an automated machine learning framework designed for programmers.\nLicense: MIT\nSource0: tangram.tar.gz\n\n%description\n%summary\n\n%prep\n%setup -q\n\n%install\nmkdir -p %buildroot/%_bindir\ninstall -m 755 tangram %buildroot/%_bindir/tangram\n\n%files\n%attr(0755, root, root) %_bindir/tangram\n"@
}

/// The container build definition, copying the binary at `binary` (relative to the build
/// context) into the image.
pub open spec fn container_file_text(binary: Seq<char>) -> Seq<char> {
    "FROM docker.io/alpine\nWORKDIR /\nCOPY "@ + binary + " .\nENTRYPOINT [\"/tangram\"]\n"@
}

pub fn debian_control(arch: &str, version: &str) -> (r: String)
    ensures
        r@ == control_text(arch@, version@),
{
    let mut r = String::from_str("Package: tangram\nArchitecture: ");
    r.append(arch);
    r.append("\nVersion: ");
    r.append(version);
    r.append("\nMaintainer: Tangram <root@tangram.xyz>\nHomepage: https://www.tangram.xyz\nDescription: Tangram is an automated machine learning framework designed for programmers.\n");
    r
}

pub fn rpm_spec(version: &str) -> (r: String)
    ensures
        r@ == spec_file_text(version@),
{
    let mut r = String::from_str("Name: tangram\nVersion: ");
    r.append(version);
    r.append("\nRelease: 1\nSummary: Tangram is an automated machine learning framework designed for programmers.\nLicense: MIT\nSource0: tangram.tar.gz\n\n%description\n%summary\n\n%prep\n%setup -q\n\n%install\nmkdir -p %buildroot/%_bindir\ninstall -m 755 tangram %buildroot/%_bindir/tangram\n\n%files\n%attr(0755, root, root) %_bindir/tangram\n");
    r
}

pub fn container_file(binary: &str) -> (r: String)
    ensures
        r@ == container_file_text(binary@),
{
    let mut r = String::from_str("FROM docker.io/alpine\nWORKDIR /\nCOPY ");
    r.append(binary);
    r.append(" .\nENTRYPOINT [\"/tangram\"]\n");
    r
}

} // verus!
