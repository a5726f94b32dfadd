use vstd::prelude::*;
use crate::target::{target_id, Target};

verus! {

/// `a/b`.
pub open spec fn join(a: Seq<char>, b: Seq<char>) -> Seq<char> {
    a + "/"@ + b
}

/// Name of the command-line tarball of a target.
pub open spec fn cli_tarball_name(version: Seq<char>, t: Target) -> Seq<char> {
    "tangram_cli_"@ + version + "_"@ + target_id(t) + ".tar.gz"@
}

/// Name of the library tarball of a target.
pub open spec fn library_tarball_name(version: Seq<char>, t: Target) -> Seq<char> {
    "libtangram_"@ + version + "_"@ + target_id(t) + ".tar.gz"@
}

/// Name of the Debian package for an architecture.
pub open spec fn deb_name(version: Seq<char>, arch: Seq<char>) -> Seq<char> {
    "tangram_"@ + version + "_"@ + arch + ".deb"@
}

/// Name of the RPM package for an architecture, in the release directory.
pub open spec fn rpm_name(version: Seq<char>, arch: Seq<char>) -> Seq<char> {
    "tangram_"@ + version + "_"@ + arch + ".rpm"@
}

/// Name under which the RPM build tool leaves its package: `<name>-<version>-<release>.<arch>.rpm`.
pub open spec fn rpm_tool_output_name(version: Seq<char>, arch: Seq<char>) -> Seq<char> {
    "tangram-"@ + version + "-1."@ + arch + ".rpm"@
}

/// Tag of the container image.
pub open spec fn container_tag(version: Seq<char>) -> Seq<char> {
    "docker.io/tangramxyz/tangram:"@ + version
}

/// `a/b`.
pub fn join_path(a: &str, b: &str) -> (r: String)
    ensures
        r@ == join(a@, b@),
{
    let mut r = String::from_str(a);
    r.append("/");
    r.append(b);
    r
}

pub fn cli_tarball_file_name(version: &str, t: Target) -> (r: String)
    ensures
        r@ == cli_tarball_name(version@, t),
{
    let mut r = String::from_str("tangram_cli_");
    r.append(version);
    r.append("_");
    r.append(t.as_str());
    r.append(".tar.gz");
    r
}

pub fn library_tarball_file_name(version: &str, t: Target) -> (r: String)
    ensures
        r@ == library_tarball_name(version@, t),
{
    let mut r = String::from_str("libtangram_");
    r.append(version);
    r.append("_");
    r.append(t.as_str());
    r.append(".tar.gz");
    r
}

pub fn deb_file_name(version: &str, arch: &str) -> (r: String)
    ensures
        r@ == deb_name(version@, arch@),
{
    let mut r = String::from_str("tangram_");
    r.append(version);
    r.append("_");
    r.append(arch);
    r.append(".deb");
    r
}

pub fn rpm_file_name(version: &str, arch: &str) -> (r: String)
    ensures
        r@ == rpm_name(version@, arch@),
{
    let mut r = String::from_str("tangram_");
    r.append(version);
    r.append("_");
    r.append(arch);
    r.append(".rpm");
    r
}

pub fn rpm_tool_output_file_name(version: &str, arch: &str) -> (r: String)
    ensures
        r@ == rpm_tool_output_name(version@, arch@),
{
    let mut r = String::from_str("tangram-");
    r.append(version);
    r.append("-1.");
    r.append(arch);
    r.append(".rpm");
    r
}

pub fn container_image_tag(version: &str) -> (r: String)
    ensures
        r@ == container_tag(version@),
{
    let mut r = String::from_str("docker.io/tangramxyz/tangram:");
    r.append(version);
    r
}

} // verus!
