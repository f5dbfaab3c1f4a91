use vstd::prelude::*;

use crate::text::str_eq;

verus! {

/// The tag of the image that holds the web UI (the name has a typo on
/// Docker Hub, which is kept).
pub open spec fn image_tag() -> Seq<char> {
    "zrll/stable-diffution:latest"@
}

/// Whether some image's first tag is the web UI's image tag.
pub open spec fn spec_check_image(repo_tags: Seq<Seq<Seq<char>>>) -> bool {
    exists|i: int| 0 <= i < repo_tags.len() && #[trigger] repo_tags[i][0] == image_tag()
}

/// The tags of each image, as text.
pub open spec fn tags_view(repo_tags: Seq<Vec<String>>) -> Seq<Seq<Seq<char>>> {
    repo_tags.map_values(|tags: Vec<String>| tags@.map_values(|t: String| t@))
}

/// Whether the web UI's image is among the local images, given the tags of
/// each image; only the first tag of an image counts.
pub fn check_image(repo_tags: &Vec<Vec<String>>) -> (r: bool)
    requires
        forall|i: int| 0 <= i < repo_tags@.len() ==> #[trigger] repo_tags@[i]@.len() > 0,
    ensures
        r == spec_check_image(tags_view(repo_tags@)),
{
    let ghost tags = tags_view(repo_tags@);
    let n = repo_tags.len();
    let mut i: usize = 0;
    while i < n
        invariant
            n == repo_tags@.len(),
            i <= n,
            tags == tags_view(repo_tags@),
            forall|j: int| 0 <= j < repo_tags@.len() ==> #[trigger] repo_tags@[j]@.len() > 0,
            forall|j: int| 0 <= j < i ==> #[trigger] tags[j][0] != image_tag(),
        decreases n - i,
    {
        let first: &String = &repo_tags[i][0];
        assert(tags[i as int][0] == first@);
        if str_eq(first.as_str(), "zrll/stable-diffution:latest") {
            return true;
        }
        i = i + 1;
    }
    false
}

/// A command line: the program and its arguments.
pub open spec fn command_view(cmd: Vec<String>) -> Seq<Seq<char>> {
    cmd@.map_values(|a: String| a@)
}

/// The command that creates the group `docker`, if it is not there.
pub open spec fn spec_docker_group_create_command() -> Seq<Seq<char>> {
    seq!["groupadd"@, "docker"@, "-f"@]
}

/// The commands that add the user to the group `docker` and switch to it.
pub open spec fn spec_docker_group_join_commands(user: Seq<char>) -> Seq<Seq<Seq<char>>> {
    seq![seq!["gpasswd"@, "-a"@, user, "docker"@], seq!["newgrp"@, "docker"@]]
}

/// The command, run after the Docker packages are installed, that creates
/// the group `docker`.
pub fn docker_group_create_command() -> (r: Vec<String>)
    ensures
        command_view(r) == spec_docker_group_create_command(),
{
    let r = vec!["groupadd".to_owned(), "docker".to_owned(), "-f".to_owned()];
    assert(command_view(r) =~= spec_docker_group_create_command());
    r
}

/// The commands, run once the group `docker` exists, that put the user in
/// it.
pub fn docker_group_join_commands(user: &str) -> (r: Vec<Vec<String>>)
    ensures
        r@.map_values(|c: Vec<String>| command_view(c)) == spec_docker_group_join_commands(user@),
{
    let r = vec![
        vec!["gpasswd".to_owned(), "-a".to_owned(), user.to_owned(), "docker".to_owned()],
        vec!["newgrp".to_owned(), "docker".to_owned()],
    ];
    assert(command_view(r@[0]) =~= seq!["gpasswd"@, "-a"@, user@, "docker"@]);
    assert(command_view(r@[1]) =~= seq!["newgrp"@, "docker"@]);
    assert(r@.map_values(|c: Vec<String>| command_view(c)) =~= spec_docker_group_join_commands(
        user@,
    ));
    r
}

} // verus!
