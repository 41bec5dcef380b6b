//! Host machine identification for the report header.

use vstd::prelude::*;
use vstd::string::StringExecFns;

verus! {

#[verifier::external_type_specification]
#[verifier::external_body]
pub struct ExIoError(std::io::Error);

/// Relies on the uname crate's `uname()` (the `uname` system call): it
/// reports five strings describing the host, or the system error. The
/// result depends on the machine, so nothing is promised of it.
#[verifier::external_body]
fn uname_call() -> Result<(String, String, String, String, String), std::io::Error> {
    match uname::uname() {
        Ok(x) => Ok((x.sysname, x.version, x.release, x.machine, x.nodename)),
        Err(e) => Err(e),
    }
}

/// The single-line rendering of the five host identity fields.
pub open spec fn spec_uname_line(
    sysname: Seq<char>,
    version: Seq<char>,
    release: Seq<char>,
    machine: Seq<char>,
    nodename: Seq<char>,
) -> Seq<char> {
    sysname + " "@ + version + " "@ + release + " "@ + machine + " "@ + nodename
}

/// Joins the five reported host identity fields into one line, in the
/// order system name, version, release, machine, node name, separated by
/// single spaces.
pub fn format_uname(
    sysname: &String,
    version: &String,
    release: &String,
    machine: &String,
    nodename: &String,
) -> (r: String)
    ensures
        r@ == spec_uname_line(sysname@, version@, release@, machine@, nodename@),
{
    let mut s = sysname.clone();
    s.append(" ");
    s.append(version.as_str());
    s.append(" ");
    s.append(release.as_str());
    s.append(" ");
    s.append(machine.as_str());
    s.append(" ");
    s.append(nodename.as_str());
    s
}

/// Describes the host in one line, or hands the system error through
/// unchanged. A successful result is always the `format_uname` join of
/// the five fields the system reported — which fields those are depends
/// on the machine alone.
pub fn uname() -> (r: Result<String, std::io::Error>)
    ensures
        r matches Ok(line) ==> exists|
            sysname: Seq<char>,
            version: Seq<char>,
            release: Seq<char>,
            machine: Seq<char>,
            nodename: Seq<char>,
        |
            line@ == spec_uname_line(sysname, version, release, machine, nodename),
{
    match uname_call() {
        Ok((sysname, version, release, machine, nodename)) => {
            let line = format_uname(&sysname, &version, &release, &machine, &nodename);
            proof {
                assert(line@ == spec_uname_line(
                    sysname@,
                    version@,
                    release@,
                    machine@,
                    nodename@,
                ));
            }
            Ok(line)
        },
        Err(e) => Err(e),
    }
}

} // verus!
