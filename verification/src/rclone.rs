//! The uploader: the copy command's arguments, the destination path
//! syntax, the judgement of the copy's outcome, and the decisions of its
//! self-install (which release asset fits the architecture, which entry
//! of the release archive is the binary).

use vstd::prelude::*;

use crate::text::ends_with;
use crate::text::find_with_suffix;
use crate::text::str_eq;
use crate::text::trim_slashes;
use crate::util::InstallError;
use crate::util::ProcessOutput;
use crate::util::TransferError;

verus! {

/// The uploader's configuration: where its binary and its configuration
/// file live, and which remote and base directory it copies into.
pub struct Rclone {
    pub rclone_path: String,
    pub remote_name: String,
    pub base_directory: String,
    pub config_filepath: String,
}

/// The copy destination for one task: `remote:base/target`, with the
/// slashes around the base directory and the target normalized away.
pub open spec fn upload_target_spec(
    remote: Seq<char>,
    base: Seq<char>,
    target: Seq<char>,
) -> Seq<char> {
    remote + ":"@ + trim_slashes(base) + "/"@ + trim_slashes(target)
}

impl Rclone {
    pub fn new(
        rclone_path: String,
        remote_name: String,
        base_directory: String,
        config_filepath: String,
    ) -> (r: Rclone)
        ensures
            r.rclone_path == rclone_path,
            r.remote_name == remote_name,
            r.base_directory == base_directory,
            r.config_filepath == config_filepath,
    {
        Rclone { rclone_path, remote_name, base_directory, config_filepath }
    }

    /// The remote path one task's working directory is copied to.
    pub fn upload_target(&self, target_dir: &str) -> (r: String)
        ensures
            r@ == upload_target_spec(self.remote_name@, self.base_directory@, target_dir@),
    {
        let base = crate::text::str_trim_slashes(self.base_directory.as_str());
        let target = crate::text::str_trim_slashes(target_dir);
        self.remote_name.clone().concat(":").concat(base.as_str()).concat("/").concat(
            target.as_str(),
        )
    }

    /// The copy command's argument list for one task.
    pub fn upload_args(&self, source_dir: &str, target_dir: &str) -> (r: Vec<String>)
        ensures
            r@.map_values(|s: String| s@) == seq![
                "--config"@,
                self.config_filepath@,
                "copy"@,
                source_dir@,
                upload_target_spec(self.remote_name@, self.base_directory@, target_dir@),
            ],
    {
        let mut v: Vec<String> = Vec::new();
        v.push(String::from_str("--config"));
        v.push(self.config_filepath.clone());
        v.push(String::from_str("copy"));
        v.push(String::from_str(source_dir));
        v.push(self.upload_target(target_dir));
        proof {
            assert(v@.map_values(|s: String| s@) =~= seq![
                "--config"@,
                self.config_filepath@,
                "copy"@,
                source_dir@,
                upload_target_spec(self.remote_name@, self.base_directory@, target_dir@),
            ]);
        }
        v
    }
}

/// Judge the copy subprocess's outcome: anything but a clean exit is a
/// transfer failure.
pub fn upload_outcome(output: &ProcessOutput) -> (r: Result<(), TransferError>)
    ensures
        r is Ok <==> output@.success(),
{
    if output.success() {
        Ok(())
    } else {
        Err(TransferError { message: String::from_str("Rclone exited unsuccessfully") })
    }
}

/// Which release asset suffix fits the running CPU architecture; an
/// architecture without builds is a fatal, non-retryable error.
pub fn rclone_asset_suffix(arch: &str) -> (r: Result<&'static str, InstallError>)
    ensures
        arch@ == "x86_64"@ ==> (r matches Ok(s) && s@ == "linux-amd64.zip"@),
        arch@ == "aarch64"@ ==> (r matches Ok(s) && s@ == "linux-arm64.zip"@),
        r is Err <==> (arch@ != "x86_64"@ && arch@ != "aarch64"@),
        r matches Err(e) ==> e is UnsupportedArchitecture,
{
    proof {
        reveal_strlit("x86_64");
        reveal_strlit("aarch64");
        assert("x86_64"@.len() == 6);
        assert("aarch64"@.len() == 7);
        assert("x86_64"@ != "aarch64"@);
    }
    if str_eq(arch, "x86_64") {
        Ok("linux-amd64.zip")
    } else if str_eq(arch, "aarch64") {
        Ok("linux-arm64.zip")
    } else {
        Err(InstallError::UnsupportedArchitecture)
    }
}

/// The first entry of the release archive's listing that is the uploader
/// binary itself; its absence makes the install fail.
pub fn find_rclone_entry(names: &Vec<String>) -> (r: Result<usize, InstallError>)
    ensures
        r matches Ok(i) ==> i < names@.len() && ends_with(names@[i as int]@, "rclone"@) && (forall|
            j: int,
        |
            0 <= j < i ==> !ends_with(names@[j]@, "rclone"@)),
        r is Err <==> forall|j: int| 0 <= j < names@.len() ==> !ends_with(names@[j]@, "rclone"@),
        r matches Err(e) ==> e matches InstallError::Failed { .. },
{
    match find_with_suffix(names, "rclone") {
        Some(i) => Ok(i),
        None => Err(
            InstallError::Failed {
                message: String::from_str("Could not find rclone binary in zip file"),
            },
        ),
    }
}

} // verus!
