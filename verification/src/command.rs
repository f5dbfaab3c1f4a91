use vstd::prelude::*;

use crate::desktop::{spec_terminal_prefix, terminal_prefix, Desktop};
use crate::docker::image_tag;
use crate::launch::launch_head;

verus! {

/// Decides whether a finished command succeeded: any text on its error
/// stream counts as a failure and is returned.
pub fn command_outcome(stderr: String) -> (r: Result<(), String>)
    ensures
        r is Ok <==> stderr@.len() == 0,
        r matches Err(e) ==> e@ == stderr@,
{
    if stderr.as_str().is_empty() {
        Ok(())
    } else {
        Err(stderr)
    }
}

/// A command line as text.
pub open spec fn words(cmd: Seq<&str>) -> Seq<Seq<char>> {
    cmd.map_values(|w: &str| w@)
}

/// The command line that opens a terminal of the desktop running `tail`.
pub open spec fn in_terminal(desktop: Desktop, tail: Seq<Seq<char>>) -> Seq<Seq<char>> {
    seq![spec_terminal_prefix(desktop).0, spec_terminal_prefix(desktop).1] + tail
}

/// Builds a command line that runs `tail` in a terminal of the desktop.
fn terminal_command(desktop: Desktop, tail: Vec<&'static str>) -> (r: Vec<&'static str>)
    ensures
        words(r@) == in_terminal(desktop, words(tail@)),
{
    let (program, separator) = terminal_prefix(desktop);
    let mut r: Vec<&'static str> = Vec::new();
    r.push(program);
    r.push(separator);
    let n = tail.len();
    let mut i: usize = 0;
    while i < n
        invariant
            n == tail@.len(),
            i <= n,
            r@.len() == 2 + i,
            r@[0]@ == spec_terminal_prefix(desktop).0,
            r@[1]@ == spec_terminal_prefix(desktop).1,
            forall|k: int| 0 <= k < i ==> #[trigger] r@[2 + k] == tail@[k],
        decreases n - i,
    {
        r.push(tail[i]);
        i = i + 1;
    }
    assert forall|k: int| 2 <= k < r@.len() implies r@[k] == tail@[k - 2] by {
        assert(r@[2 + (k - 2)] == tail@[k - 2]);
    }
    assert(words(r@) =~= in_terminal(desktop, words(tail@)));
    r
}

/// The arguments of `amdgpu-install` that install the ROCm driver.
pub open spec fn driver_install_words() -> Seq<Seq<char>> {
    seq!["amdgpu-install"@, "--usecase=rocm,hip,graphics"@, "--opencl=rocr"@, "-y"@]
}

/// The command line that runs AMD's driver installer in a terminal.
pub fn driver_install_command(desktop: Desktop) -> (r: Vec<&'static str>)
    ensures
        words(r@) == in_terminal(desktop, driver_install_words()),
{
    let tail = vec!["amdgpu-install", "--usecase=rocm,hip,graphics", "--opencl=rocr", "-y"];
    assert(words(tail@) =~= driver_install_words());
    terminal_command(desktop, tail)
}

/// The `docker run` that pulls the web UI's image and creates its container.
pub open spec fn pull_image_words() -> Seq<Seq<char>> {
    seq![
        "docker"@, "run"@, "-it"@, "--network=host"@, "--device=/dev/kfd"@, "--device=/dev/dri"@,
        "--group-add=video"@, "--ipc=host"@, "--cap-add=SYS_PTRACE"@, "--security-opt"@,
        "seccomp=unconfined"@, "--name=stable-diffusion"@, "-v"@, "$HOME/dockerx:/dockerx"@,
        "zrll/stable-diffution"@,
    ]
}

/// The command line that pulls the image into a new container, in a terminal.
pub fn pull_image_command(desktop: Desktop) -> (r: Vec<&'static str>)
    ensures
        words(r@) == in_terminal(desktop, pull_image_words()),
{
    let tail = vec![
        "docker", "run", "-it", "--network=host", "--device=/dev/kfd", "--device=/dev/dri",
        "--group-add=video", "--ipc=host", "--cap-add=SYS_PTRACE", "--security-opt",
        "seccomp=unconfined", "--name=stable-diffusion", "-v", "$HOME/dockerx:/dockerx",
        "zrll/stable-diffution",
    ];
    assert(words(tail@) =~= pull_image_words());
    terminal_command(desktop, tail)
}

/// The `docker exec` that copies the web UI's files out of the container.
pub open spec fn release_files_words() -> Seq<Seq<char>> {
    seq![
        "docker"@, "exec"@, "-it"@, "stable-diffusion"@, "rsync"@, "-a"@, "-P"@, "/sd_backup"@,
        "/dockerx"@,
    ]
}

/// The command line that copies the web UI's files to `/dockerx`, in a
/// terminal.
pub fn release_files_command(desktop: Desktop) -> (r: Vec<&'static str>)
    ensures
        words(r@) == in_terminal(desktop, release_files_words()),
{
    let tail = vec![
        "docker", "exec", "-it", "stable-diffusion", "rsync", "-a", "-P", "/sd_backup", "/dockerx",
    ];
    assert(words(tail@) =~= release_files_words());
    terminal_command(desktop, tail)
}

/// The name of the web UI's container.
pub open spec fn container_name() -> Seq<char> {
    "stable-diffusion"@
}

/// The container is named the same everywhere: `docker run` creates it as
/// `stable-diffusion`, the name that the copy of the files and the launch
/// script use; and the image that `docker run` pulls is the one, tagged
/// `latest`, that the image check looks for.
pub proof fn lemma_container_named_consistently()
    ensures
        pull_image_words().len() == 15,
        pull_image_words()[11] == "--name="@ + container_name(),
        pull_image_words()[14] + ":latest"@ == image_tag(),
        release_files_words()[1] == "exec"@,
        release_files_words()[3] == container_name(),
        launch_head().subrange(0, 16 + container_name().len() as int) == "docker exec -it "@
            + container_name(),
{
    reveal_strlit("--name=");
    reveal_strlit("--name=stable-diffusion");
    reveal_strlit("stable-diffusion");
    reveal_strlit("zrll/stable-diffution");
    reveal_strlit(":latest");
    reveal_strlit("zrll/stable-diffution:latest");
    reveal_strlit("docker exec -it ");
    reveal_strlit(
        "docker exec -it stable-diffusion bash -c \"cd /dockerx/stable-diffusion-webui && source venv/bin/activate && REQS_FILE='requirements.txt' ",
    );
    assert(pull_image_words()[11] =~= "--name="@ + container_name());
    assert(pull_image_words()[14] + ":latest"@ =~= image_tag());
    assert(launch_head().subrange(0, 16 + container_name().len() as int) =~= "docker exec -it "@
        + container_name());
}

} // verus!
