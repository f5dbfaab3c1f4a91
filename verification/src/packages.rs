use vstd::prelude::*;

use crate::distribution::Distribution;

verus! {

/// A Debian package that the installer downloads, checks and installs.
#[derive(Clone, Copy, Debug)]
pub struct Package {
    /// Where the package is downloaded from.
    pub url: &'static str,
    /// The name shown to the user while it is handled.
    pub describe: &'static str,
    /// The expected MD5 digest of the file, in lowercase hexadecimal.
    pub md5: &'static str,
    /// The name under which the downloaded file is stored.
    pub file_name: &'static str,
}

/// A package as text: address, shown name, digest and file name.
pub struct PackageView {
    pub url: Seq<char>,
    pub describe: Seq<char>,
    pub md5: Seq<char>,
    pub file_name: Seq<char>,
}

impl View for Package {
    type V = PackageView;

    open spec fn view(&self) -> PackageView {
        PackageView {
            url: self.url@,
            describe: self.describe@,
            md5: self.md5@,
            file_name: self.file_name@,
        }
    }
}

/// A package's view from its four texts.
pub open spec fn pkg(url: &str, describe: &str, md5: &str, file_name: &str) -> PackageView {
    PackageView { url: url@, describe: describe@, md5: md5@, file_name: file_name@ }
}

/// The packages of Docker for the given release, in the order of install.
pub open spec fn spec_docker_packages(d: Distribution) -> Seq<PackageView> {
    match d {
        Distribution::Ubuntu2004 => seq![
            pkg("https://download.docker.com/linux/ubuntu/dists/focal/pool/stable/amd64/containerd.io_1.6.20-1_amd64.deb", "containerd", "99716cf5d655a35badbf5c578afbabfd", "containerd.io_1.6.20-1_amd64.deb"),
            pkg("https://download.docker.com/linux/ubuntu/dists/focal/pool/stable/amd64/docker-ce-cli_23.0.3-1~ubuntu.20.04~focal_amd64.deb", "docker-ce-cli", "e5a0c3de84a458a9d4fb711e7b00fca2", "docker-ce-cli_23.0.3-1~ubuntu.20.04~focal_amd64.deb"),
            pkg("https://download.docker.com/linux/ubuntu/dists/focal/pool/stable/amd64/docker-ce_23.0.3-1~ubuntu.20.04~focal_amd64.deb", "docker-ce", "77e525d158f15e92bd2192bb0462e2cb", "docker-ce_23.0.3-1~ubuntu.20.04~focal_amd64.deb"),
            pkg("https://download.docker.com/linux/ubuntu/dists/focal/pool/stable/amd64/docker-buildx-plugin_0.10.4-1~ubuntu.20.04~focal_amd64.deb", "buildx-plugin", "f908e8c6a86033722f15b56041b35390", "docker-buildx-plugin_0.10.4-1~ubuntu.20.04~focal_amd64.deb"),
            pkg("https://download.docker.com/linux/ubuntu/dists/focal/pool/stable/amd64/docker-compose-plugin_2.17.2-1~ubuntu.20.04~focal_amd64.deb", "compose-plugin", "60abca4f505b3a91962935fa8fb39de9", "docker-compose-plugin_2.17.2-1~ubuntu.20.04~focal_amd64.deb"),
        ],
        Distribution::Ubuntu2204 => seq![
            pkg("https://download.docker.com/linux/ubuntu/dists/jammy/pool/stable/amd64/containerd.io_1.6.20-1_amd64.deb", "containerd", "e415b88f5f0d926a9192e804f7d3b693", "containerd.io_1.6.20-1_amd64.deb"),
            pkg("https://download.docker.com/linux/ubuntu/dists/jammy/pool/stable/amd64/docker-ce-cli_23.0.3-1~ubuntu.22.04~jammy_amd64.deb", "docker-ce-cli", "a913680a6ecfcffc25ee4b877fbfccab", "docker-ce-cli_23.0.3-1~ubuntu.22.04~jammy_amd64.deb"),
            pkg("https://download.docker.com/linux/ubuntu/dists/jammy/pool/stable/amd64/docker-ce_23.0.3-1~ubuntu.22.04~jammy_amd64.deb", "docker-ce", "9e171fc3faa2c7a881a5831406d4ad80", "docker-ce_23.0.3-1~ubuntu.22.04~jammy_amd64.deb"),
            pkg("https://download.docker.com/linux/ubuntu/dists/jammy/pool/stable/amd64/docker-buildx-plugin_0.10.4-1~ubuntu.22.04~jammy_amd64.deb", "buildx-plugin", "8302dcb5a863e0b1c40fbc86c0a23547", "docker-buildx-plugin_0.10.4-1~ubuntu.22.04~jammy_amd64.deb"),
            pkg("https://download.docker.com/linux/ubuntu/dists/jammy/pool/stable/amd64/docker-compose-plugin_2.17.2-1~ubuntu.22.04~jammy_amd64.deb", "compose-plugin", "5747b120df5b0c1d3c500a12bc81d1c6", "docker-compose-plugin_2.17.2-1~ubuntu.22.04~jammy_amd64.deb"),
        ],
    }
}

/// The Docker packages to install on the given release, in order:
/// containerd, the Docker CLI, the Docker engine, buildx and compose.
pub fn docker_packages(d: Distribution) -> (r: Vec<Package>)
    ensures
        r@.map_values(|p: Package| p@) == spec_docker_packages(d),
        forall|i: int| 0 <= i < r@.len() ==> #[trigger] r@[i].md5@ == published_md5(r@[i].url@),
{
    let r = match d {
        Distribution::Ubuntu2004 => vec![
            Package { url: "https://download.docker.com/linux/ubuntu/dists/focal/pool/stable/amd64/containerd.io_1.6.20-1_amd64.deb", describe: "containerd", md5: "99716cf5d655a35badbf5c578afbabfd", file_name: "containerd.io_1.6.20-1_amd64.deb" },
            Package { url: "https://download.docker.com/linux/ubuntu/dists/focal/pool/stable/amd64/docker-ce-cli_23.0.3-1~ubuntu.20.04~focal_amd64.deb", describe: "docker-ce-cli", md5: "e5a0c3de84a458a9d4fb711e7b00fca2", file_name: "docker-ce-cli_23.0.3-1~ubuntu.20.04~focal_amd64.deb" },
            Package { url: "https://download.docker.com/linux/ubuntu/dists/focal/pool/stable/amd64/docker-ce_23.0.3-1~ubuntu.20.04~focal_amd64.deb", describe: "docker-ce", md5: "77e525d158f15e92bd2192bb0462e2cb", file_name: "docker-ce_23.0.3-1~ubuntu.20.04~focal_amd64.deb" },
            Package { url: "https://download.docker.com/linux/ubuntu/dists/focal/pool/stable/amd64/docker-buildx-plugin_0.10.4-1~ubuntu.20.04~focal_amd64.deb", describe: "buildx-plugin", md5: "f908e8c6a86033722f15b56041b35390", file_name: "docker-buildx-plugin_0.10.4-1~ubuntu.20.04~focal_amd64.deb" },
            Package { url: "https://download.docker.com/linux/ubuntu/dists/focal/pool/stable/amd64/docker-compose-plugin_2.17.2-1~ubuntu.20.04~focal_amd64.deb", describe: "compose-plugin", md5: "60abca4f505b3a91962935fa8fb39de9", file_name: "docker-compose-plugin_2.17.2-1~ubuntu.20.04~focal_amd64.deb" },
        ],
        Distribution::Ubuntu2204 => vec![
            Package { url: "https://download.docker.com/linux/ubuntu/dists/jammy/pool/stable/amd64/containerd.io_1.6.20-1_amd64.deb", describe: "containerd", md5: "e415b88f5f0d926a9192e804f7d3b693", file_name: "containerd.io_1.6.20-1_amd64.deb" },
            Package { url: "https://download.docker.com/linux/ubuntu/dists/jammy/pool/stable/amd64/docker-ce-cli_23.0.3-1~ubuntu.22.04~jammy_amd64.deb", describe: "docker-ce-cli", md5: "a913680a6ecfcffc25ee4b877fbfccab", file_name: "docker-ce-cli_23.0.3-1~ubuntu.22.04~jammy_amd64.deb" },
            Package { url: "https://download.docker.com/linux/ubuntu/dists/jammy/pool/stable/amd64/docker-ce_23.0.3-1~ubuntu.22.04~jammy_amd64.deb", describe: "docker-ce", md5: "9e171fc3faa2c7a881a5831406d4ad80", file_name: "docker-ce_23.0.3-1~ubuntu.22.04~jammy_amd64.deb" },
            Package { url: "https://download.docker.com/linux/ubuntu/dists/jammy/pool/stable/amd64/docker-buildx-plugin_0.10.4-1~ubuntu.22.04~jammy_amd64.deb", describe: "buildx-plugin", md5: "8302dcb5a863e0b1c40fbc86c0a23547", file_name: "docker-buildx-plugin_0.10.4-1~ubuntu.22.04~jammy_amd64.deb" },
            Package { url: "https://download.docker.com/linux/ubuntu/dists/jammy/pool/stable/amd64/docker-compose-plugin_2.17.2-1~ubuntu.22.04~jammy_amd64.deb", describe: "compose-plugin", md5: "5747b120df5b0c1d3c500a12bc81d1c6", file_name: "docker-compose-plugin_2.17.2-1~ubuntu.22.04~jammy_amd64.deb" },
        ],
    };
    assert(r@.map_values(|p: Package| p@) =~= spec_docker_packages(d));
    proof {
        lemma_packages_expect_published_md5(d);
        assert forall|i: int| 0 <= i < r@.len() implies #[trigger] r@[i].md5@ == published_md5(
            r@[i].url@,
        ) by {
            assert(r@.map_values(|p: Package| p@)[i] == r@[i]@);
            assert(spec_docker_packages(d)[i].md5 == published_md5(spec_docker_packages(d)[i].url));
        }
    }
    r
}

/// The package of AMD's driver installer for the given release.
pub open spec fn spec_driver_package(d: Distribution) -> PackageView {
    match d {
        Distribution::Ubuntu2004 => pkg("https://repo.radeon.com/amdgpu-install/22.40.3/ubuntu/focal/amdgpu-install_5.4.50403-1_all.deb", "installer", "9f59f90b8e9cdd502892b1d052e909b1", "amdgpu-install_5.4.50403-1_all.deb"),
        Distribution::Ubuntu2204 => pkg("https://repo.radeon.com/amdgpu-install/22.40.3/ubuntu/jammy/amdgpu-install_5.4.50403-1_all.deb", "installer", "493c00c81e8dc166b3abde1bf1d04cda", "amdgpu-install_5.4.50403-1_all.deb"),
    }
}

/// The package of AMD's driver installer (amdgpu-install) for the release.
pub fn driver_package(d: Distribution) -> (p: Package)
    ensures
        p@ == spec_driver_package(d),
        p.md5@ == published_md5(p.url@),
        p.url@ == "https://repo.radeon.com/amdgpu-install/22.40.3/ubuntu/"@ + release_codename(d)
            + "/"@ + p.file_name@,
{
    proof {
        lemma_packages_expect_published_md5(d);
        lemma_driver_follows_release(d);
    }
    match d {
        Distribution::Ubuntu2004 => Package { url: "https://repo.radeon.com/amdgpu-install/22.40.3/ubuntu/focal/amdgpu-install_5.4.50403-1_all.deb", describe: "installer", md5: "9f59f90b8e9cdd502892b1d052e909b1", file_name: "amdgpu-install_5.4.50403-1_all.deb" },
        Distribution::Ubuntu2204 => Package { url: "https://repo.radeon.com/amdgpu-install/22.40.3/ubuntu/jammy/amdgpu-install_5.4.50403-1_all.deb", describe: "installer", md5: "493c00c81e8dc166b3abde1bf1d04cda", file_name: "amdgpu-install_5.4.50403-1_all.deb" },
    }
}


/// The file is stored under the name that ends its download address, after
/// the last '/'.
pub open spec fn file_name_ends_url(p: PackageView) -> bool {
    let n = p.url.len();
    let k = p.file_name.len();
    &&& k > 0
    &&& n > k
    &&& p.url[n - k - 1] == '/'
    &&& p.url.subrange(n - k, n as int) == p.file_name
    &&& !p.file_name.contains('/')
}

/// Every package is saved by the downloader under its file name: the file
/// name of each package is the last segment of its address.
pub proof fn lemma_file_name_ends_url(d: Distribution)
    ensures
        forall|i: int| 0 <= i < spec_docker_packages(d).len()
            ==> #[trigger] file_name_ends_url(spec_docker_packages(d)[i]),
        file_name_ends_url(spec_driver_package(d)),
{
    reveal_strlit("https://download.docker.com/linux/ubuntu/dists/focal/pool/stable/amd64/containerd.io_1.6.20-1_amd64.deb");
    reveal_strlit("containerd.io_1.6.20-1_amd64.deb");
    reveal_strlit("https://download.docker.com/linux/ubuntu/dists/focal/pool/stable/amd64/docker-ce-cli_23.0.3-1~ubuntu.20.04~focal_amd64.deb");
    reveal_strlit("docker-ce-cli_23.0.3-1~ubuntu.20.04~focal_amd64.deb");
    reveal_strlit("https://download.docker.com/linux/ubuntu/dists/focal/pool/stable/amd64/docker-ce_23.0.3-1~ubuntu.20.04~focal_amd64.deb");
    reveal_strlit("docker-ce_23.0.3-1~ubuntu.20.04~focal_amd64.deb");
    reveal_strlit("https://download.docker.com/linux/ubuntu/dists/focal/pool/stable/amd64/docker-buildx-plugin_0.10.4-1~ubuntu.20.04~focal_amd64.deb");
    reveal_strlit("docker-buildx-plugin_0.10.4-1~ubuntu.20.04~focal_amd64.deb");
    reveal_strlit("https://download.docker.com/linux/ubuntu/dists/focal/pool/stable/amd64/docker-compose-plugin_2.17.2-1~ubuntu.20.04~focal_amd64.deb");
    reveal_strlit("docker-compose-plugin_2.17.2-1~ubuntu.20.04~focal_amd64.deb");
    reveal_strlit("https://download.docker.com/linux/ubuntu/dists/jammy/pool/stable/amd64/containerd.io_1.6.20-1_amd64.deb");
    reveal_strlit("https://download.docker.com/linux/ubuntu/dists/jammy/pool/stable/amd64/docker-ce-cli_23.0.3-1~ubuntu.22.04~jammy_amd64.deb");
    reveal_strlit("docker-ce-cli_23.0.3-1~ubuntu.22.04~jammy_amd64.deb");
    reveal_strlit("https://download.docker.com/linux/ubuntu/dists/jammy/pool/stable/amd64/docker-ce_23.0.3-1~ubuntu.22.04~jammy_amd64.deb");
    reveal_strlit("docker-ce_23.0.3-1~ubuntu.22.04~jammy_amd64.deb");
    reveal_strlit("https://download.docker.com/linux/ubuntu/dists/jammy/pool/stable/amd64/docker-buildx-plugin_0.10.4-1~ubuntu.22.04~jammy_amd64.deb");
    reveal_strlit("docker-buildx-plugin_0.10.4-1~ubuntu.22.04~jammy_amd64.deb");
    reveal_strlit("https://download.docker.com/linux/ubuntu/dists/jammy/pool/stable/amd64/docker-compose-plugin_2.17.2-1~ubuntu.22.04~jammy_amd64.deb");
    reveal_strlit("docker-compose-plugin_2.17.2-1~ubuntu.22.04~jammy_amd64.deb");
    reveal_strlit("https://repo.radeon.com/amdgpu-install/22.40.3/ubuntu/focal/amdgpu-install_5.4.50403-1_all.deb");
    reveal_strlit("amdgpu-install_5.4.50403-1_all.deb");
    reveal_strlit("https://repo.radeon.com/amdgpu-install/22.40.3/ubuntu/jammy/amdgpu-install_5.4.50403-1_all.deb");
    assert(spec_docker_packages(d).len() == 5);
    assert forall|i: int| 0 <= i < 5 implies #[trigger] file_name_ends_url(spec_docker_packages(d)[i]) by {
        let p = spec_docker_packages(d)[i];
        assert(p.url.subrange(p.url.len() - p.file_name.len(), p.url.len() as int) =~= p.file_name);
    }
    let p = spec_driver_package(d);
    assert(p.url.subrange(p.url.len() - p.file_name.len(), p.url.len() as int) =~= p.file_name);
}


/// The release's code name as it appears in Docker's package addresses.
pub open spec fn release_codename(d: Distribution) -> Seq<char> {
    match d {
        Distribution::Ubuntu2004 => "focal"@,
        Distribution::Ubuntu2204 => "jammy"@,
    }
}

/// The release's version as it appears in Docker's package names.
pub open spec fn release_version(d: Distribution) -> Seq<char> {
    match d {
        Distribution::Ubuntu2004 => "20.04"@,
        Distribution::Ubuntu2204 => "22.04"@,
    }
}

/// The file name of the `i`-th Docker package for a release with the given
/// code name and version: containerd's is the same for every release, the
/// others name the version and the code name.
pub open spec fn docker_file_name(i: int, codename: Seq<char>, version: Seq<char>) -> Seq<char> {
    let stem = if i == 1 {
        "docker-ce-cli_23.0.3-1"@
    } else if i == 2 {
        "docker-ce_23.0.3-1"@
    } else if i == 3 {
        "docker-buildx-plugin_0.10.4-1"@
    } else {
        "docker-compose-plugin_2.17.2-1"@
    };
    if i == 0 {
        "containerd.io_1.6.20-1_amd64.deb"@
    } else {
        stem + "~ubuntu."@ + version + "~"@ + codename + "_amd64.deb"@
    }
}

/// The address of the `i`-th Docker package for a release with the given
/// code name and version.
pub open spec fn docker_url(i: int, codename: Seq<char>, version: Seq<char>) -> Seq<char> {
    "https://download.docker.com/linux/ubuntu/dists/"@ + codename + "/pool/stable/amd64/"@
        + docker_file_name(i, codename, version)
}

/// Both releases install the same Docker packages, in the same order and
/// under the same names, from the same addresses with only the release's
/// code name and version put in; the digests differ between the releases.
pub proof fn lemma_docker_tables_follow_release(i: int)
    requires
        0 <= i < 5,
    ensures
        spec_docker_packages(Distribution::Ubuntu2004).len() == 5,
        spec_docker_packages(Distribution::Ubuntu2204).len() == 5,
        spec_docker_packages(Distribution::Ubuntu2004)[i].describe
            == spec_docker_packages(Distribution::Ubuntu2204)[i].describe,
        spec_docker_packages(Distribution::Ubuntu2004)[i].md5
            != spec_docker_packages(Distribution::Ubuntu2204)[i].md5,
        forall|d: Distribution| #![trigger spec_docker_packages(d)[i]]
            spec_docker_packages(d)[i].url == docker_url(i, release_codename(d), release_version(d))
            && spec_docker_packages(d)[i].file_name == docker_file_name(
                i,
                release_codename(d),
                release_version(d),
            ),
{
    reveal_strlit("https://download.docker.com/linux/ubuntu/dists/focal/pool/stable/amd64/containerd.io_1.6.20-1_amd64.deb");
    reveal_strlit("99716cf5d655a35badbf5c578afbabfd");
    reveal_strlit("containerd.io_1.6.20-1_amd64.deb");
    reveal_strlit("https://download.docker.com/linux/ubuntu/dists/focal/pool/stable/amd64/docker-ce-cli_23.0.3-1~ubuntu.20.04~focal_amd64.deb");
    reveal_strlit("e5a0c3de84a458a9d4fb711e7b00fca2");
    reveal_strlit("docker-ce-cli_23.0.3-1~ubuntu.20.04~focal_amd64.deb");
    reveal_strlit("https://download.docker.com/linux/ubuntu/dists/focal/pool/stable/amd64/docker-ce_23.0.3-1~ubuntu.20.04~focal_amd64.deb");
    reveal_strlit("77e525d158f15e92bd2192bb0462e2cb");
    reveal_strlit("docker-ce_23.0.3-1~ubuntu.20.04~focal_amd64.deb");
    reveal_strlit("https://download.docker.com/linux/ubuntu/dists/focal/pool/stable/amd64/docker-buildx-plugin_0.10.4-1~ubuntu.20.04~focal_amd64.deb");
    reveal_strlit("f908e8c6a86033722f15b56041b35390");
    reveal_strlit("docker-buildx-plugin_0.10.4-1~ubuntu.20.04~focal_amd64.deb");
    reveal_strlit("https://download.docker.com/linux/ubuntu/dists/focal/pool/stable/amd64/docker-compose-plugin_2.17.2-1~ubuntu.20.04~focal_amd64.deb");
    reveal_strlit("60abca4f505b3a91962935fa8fb39de9");
    reveal_strlit("docker-compose-plugin_2.17.2-1~ubuntu.20.04~focal_amd64.deb");
    reveal_strlit("https://download.docker.com/linux/ubuntu/dists/jammy/pool/stable/amd64/containerd.io_1.6.20-1_amd64.deb");
    reveal_strlit("e415b88f5f0d926a9192e804f7d3b693");
    reveal_strlit("https://download.docker.com/linux/ubuntu/dists/jammy/pool/stable/amd64/docker-ce-cli_23.0.3-1~ubuntu.22.04~jammy_amd64.deb");
    reveal_strlit("a913680a6ecfcffc25ee4b877fbfccab");
    reveal_strlit("docker-ce-cli_23.0.3-1~ubuntu.22.04~jammy_amd64.deb");
    reveal_strlit("https://download.docker.com/linux/ubuntu/dists/jammy/pool/stable/amd64/docker-ce_23.0.3-1~ubuntu.22.04~jammy_amd64.deb");
    reveal_strlit("9e171fc3faa2c7a881a5831406d4ad80");
    reveal_strlit("docker-ce_23.0.3-1~ubuntu.22.04~jammy_amd64.deb");
    reveal_strlit("https://download.docker.com/linux/ubuntu/dists/jammy/pool/stable/amd64/docker-buildx-plugin_0.10.4-1~ubuntu.22.04~jammy_amd64.deb");
    reveal_strlit("8302dcb5a863e0b1c40fbc86c0a23547");
    reveal_strlit("docker-buildx-plugin_0.10.4-1~ubuntu.22.04~jammy_amd64.deb");
    reveal_strlit("https://download.docker.com/linux/ubuntu/dists/jammy/pool/stable/amd64/docker-compose-plugin_2.17.2-1~ubuntu.22.04~jammy_amd64.deb");
    reveal_strlit("5747b120df5b0c1d3c500a12bc81d1c6");
    reveal_strlit("docker-compose-plugin_2.17.2-1~ubuntu.22.04~jammy_amd64.deb");
    reveal_strlit("https://download.docker.com/linux/ubuntu/dists/");
    reveal_strlit("/pool/stable/amd64/");
    reveal_strlit("docker-ce-cli_23.0.3-1");
    reveal_strlit("docker-ce_23.0.3-1");
    reveal_strlit("docker-buildx-plugin_0.10.4-1");
    reveal_strlit("docker-compose-plugin_2.17.2-1");
    reveal_strlit("~ubuntu.");
    reveal_strlit("~");
    reveal_strlit("_amd64.deb");
    reveal_strlit("focal");
    reveal_strlit("jammy");
    reveal_strlit("20.04");
    reveal_strlit("22.04");
    let f = spec_docker_packages(Distribution::Ubuntu2004);
    let j = spec_docker_packages(Distribution::Ubuntu2204);
    assert(f[i].md5[0] != j[i].md5[0] || f[i].md5[1] != j[i].md5[1]);
    assert forall|d: Distribution| #![trigger spec_docker_packages(d)[i]]
        spec_docker_packages(d)[i].url == docker_url(i, release_codename(d), release_version(d))
            && spec_docker_packages(d)[i].file_name == docker_file_name(
            i,
            release_codename(d),
            release_version(d),
        ) by {
        let p = spec_docker_packages(d)[i];
        assert(p.file_name =~= docker_file_name(i, release_codename(d), release_version(d)));
        assert(p.url =~= docker_url(i, release_codename(d), release_version(d)));
    }
}


/// The MD5 digests published for the package files, by download address.
pub open spec fn published_md5(url: Seq<char>) -> Seq<char> {
    if url == "https://download.docker.com/linux/ubuntu/dists/focal/pool/stable/amd64/containerd.io_1.6.20-1_amd64.deb"@ {
        "99716cf5d655a35badbf5c578afbabfd"@
    } else if url == "https://download.docker.com/linux/ubuntu/dists/focal/pool/stable/amd64/docker-buildx-plugin_0.10.4-1~ubuntu.20.04~focal_amd64.deb"@ {
        "f908e8c6a86033722f15b56041b35390"@
    } else if url == "https://download.docker.com/linux/ubuntu/dists/focal/pool/stable/amd64/docker-ce-cli_23.0.3-1~ubuntu.20.04~focal_amd64.deb"@ {
        "e5a0c3de84a458a9d4fb711e7b00fca2"@
    } else if url == "https://download.docker.com/linux/ubuntu/dists/focal/pool/stable/amd64/docker-ce_23.0.3-1~ubuntu.20.04~focal_amd64.deb"@ {
        "77e525d158f15e92bd2192bb0462e2cb"@
    } else if url == "https://download.docker.com/linux/ubuntu/dists/focal/pool/stable/amd64/docker-compose-plugin_2.17.2-1~ubuntu.20.04~focal_amd64.deb"@ {
        "60abca4f505b3a91962935fa8fb39de9"@
    } else if url == "https://download.docker.com/linux/ubuntu/dists/jammy/pool/stable/amd64/containerd.io_1.6.20-1_amd64.deb"@ {
        "e415b88f5f0d926a9192e804f7d3b693"@
    } else if url == "https://download.docker.com/linux/ubuntu/dists/jammy/pool/stable/amd64/docker-buildx-plugin_0.10.4-1~ubuntu.22.04~jammy_amd64.deb"@ {
        "8302dcb5a863e0b1c40fbc86c0a23547"@
    } else if url == "https://download.docker.com/linux/ubuntu/dists/jammy/pool/stable/amd64/docker-ce-cli_23.0.3-1~ubuntu.22.04~jammy_amd64.deb"@ {
        "a913680a6ecfcffc25ee4b877fbfccab"@
    } else if url == "https://download.docker.com/linux/ubuntu/dists/jammy/pool/stable/amd64/docker-ce_23.0.3-1~ubuntu.22.04~jammy_amd64.deb"@ {
        "9e171fc3faa2c7a881a5831406d4ad80"@
    } else if url == "https://download.docker.com/linux/ubuntu/dists/jammy/pool/stable/amd64/docker-compose-plugin_2.17.2-1~ubuntu.22.04~jammy_amd64.deb"@ {
        "5747b120df5b0c1d3c500a12bc81d1c6"@
    } else if url == "https://repo.radeon.com/amdgpu-install/22.40.3/ubuntu/focal/amdgpu-install_5.4.50403-1_all.deb"@ {
        "9f59f90b8e9cdd502892b1d052e909b1"@
    } else if url == "https://repo.radeon.com/amdgpu-install/22.40.3/ubuntu/jammy/amdgpu-install_5.4.50403-1_all.deb"@ {
        "493c00c81e8dc166b3abde1bf1d04cda"@
    } else {
        Seq::empty()
    }
}

/// Every package is checked against the digest published for the file at
/// its own address.
pub proof fn lemma_packages_expect_published_md5(d: Distribution)
    ensures
        forall|i: int| 0 <= i < spec_docker_packages(d).len() ==> #[trigger] spec_docker_packages(d)[i].md5
            == published_md5(spec_docker_packages(d)[i].url),
        spec_driver_package(d).md5 == published_md5(spec_driver_package(d).url),
{
    reveal_strlit("https://download.docker.com/linux/ubuntu/dists/focal/pool/stable/amd64/containerd.io_1.6.20-1_amd64.deb");
    reveal_strlit("https://download.docker.com/linux/ubuntu/dists/focal/pool/stable/amd64/docker-buildx-plugin_0.10.4-1~ubuntu.20.04~focal_amd64.deb");
    reveal_strlit("https://download.docker.com/linux/ubuntu/dists/focal/pool/stable/amd64/docker-ce-cli_23.0.3-1~ubuntu.20.04~focal_amd64.deb");
    reveal_strlit("https://download.docker.com/linux/ubuntu/dists/focal/pool/stable/amd64/docker-ce_23.0.3-1~ubuntu.20.04~focal_amd64.deb");
    reveal_strlit("https://download.docker.com/linux/ubuntu/dists/focal/pool/stable/amd64/docker-compose-plugin_2.17.2-1~ubuntu.20.04~focal_amd64.deb");
    reveal_strlit("https://download.docker.com/linux/ubuntu/dists/jammy/pool/stable/amd64/containerd.io_1.6.20-1_amd64.deb");
    reveal_strlit("https://download.docker.com/linux/ubuntu/dists/jammy/pool/stable/amd64/docker-buildx-plugin_0.10.4-1~ubuntu.22.04~jammy_amd64.deb");
    reveal_strlit("https://download.docker.com/linux/ubuntu/dists/jammy/pool/stable/amd64/docker-ce-cli_23.0.3-1~ubuntu.22.04~jammy_amd64.deb");
    reveal_strlit("https://download.docker.com/linux/ubuntu/dists/jammy/pool/stable/amd64/docker-ce_23.0.3-1~ubuntu.22.04~jammy_amd64.deb");
    reveal_strlit("https://download.docker.com/linux/ubuntu/dists/jammy/pool/stable/amd64/docker-compose-plugin_2.17.2-1~ubuntu.22.04~jammy_amd64.deb");
    reveal_strlit("https://repo.radeon.com/amdgpu-install/22.40.3/ubuntu/focal/amdgpu-install_5.4.50403-1_all.deb");
    reveal_strlit("https://repo.radeon.com/amdgpu-install/22.40.3/ubuntu/jammy/amdgpu-install_5.4.50403-1_all.deb");
    assert("https://download.docker.com/linux/ubuntu/dists/focal/pool/stable/amd64/docker-buildx-plugin_0.10.4-1~ubuntu.20.04~focal_amd64.deb"@.len() != "https://download.docker.com/linux/ubuntu/dists/focal/pool/stable/amd64/containerd.io_1.6.20-1_amd64.deb"@.len());
    assert("https://download.docker.com/linux/ubuntu/dists/focal/pool/stable/amd64/docker-ce-cli_23.0.3-1~ubuntu.20.04~focal_amd64.deb"@.len() != "https://download.docker.com/linux/ubuntu/dists/focal/pool/stable/amd64/containerd.io_1.6.20-1_amd64.deb"@.len());
    assert("https://download.docker.com/linux/ubuntu/dists/focal/pool/stable/amd64/docker-ce-cli_23.0.3-1~ubuntu.20.04~focal_amd64.deb"@.len() != "https://download.docker.com/linux/ubuntu/dists/focal/pool/stable/amd64/docker-buildx-plugin_0.10.4-1~ubuntu.20.04~focal_amd64.deb"@.len());
    assert("https://download.docker.com/linux/ubuntu/dists/focal/pool/stable/amd64/docker-ce_23.0.3-1~ubuntu.20.04~focal_amd64.deb"@.len() != "https://download.docker.com/linux/ubuntu/dists/focal/pool/stable/amd64/containerd.io_1.6.20-1_amd64.deb"@.len());
    assert("https://download.docker.com/linux/ubuntu/dists/focal/pool/stable/amd64/docker-ce_23.0.3-1~ubuntu.20.04~focal_amd64.deb"@.len() != "https://download.docker.com/linux/ubuntu/dists/focal/pool/stable/amd64/docker-buildx-plugin_0.10.4-1~ubuntu.20.04~focal_amd64.deb"@.len());
    assert("https://download.docker.com/linux/ubuntu/dists/focal/pool/stable/amd64/docker-ce_23.0.3-1~ubuntu.20.04~focal_amd64.deb"@.len() != "https://download.docker.com/linux/ubuntu/dists/focal/pool/stable/amd64/docker-ce-cli_23.0.3-1~ubuntu.20.04~focal_amd64.deb"@.len());
    assert("https://download.docker.com/linux/ubuntu/dists/focal/pool/stable/amd64/docker-compose-plugin_2.17.2-1~ubuntu.20.04~focal_amd64.deb"@.len() != "https://download.docker.com/linux/ubuntu/dists/focal/pool/stable/amd64/containerd.io_1.6.20-1_amd64.deb"@.len());
    assert("https://download.docker.com/linux/ubuntu/dists/focal/pool/stable/amd64/docker-compose-plugin_2.17.2-1~ubuntu.20.04~focal_amd64.deb"@.len() != "https://download.docker.com/linux/ubuntu/dists/focal/pool/stable/amd64/docker-buildx-plugin_0.10.4-1~ubuntu.20.04~focal_amd64.deb"@.len());
    assert("https://download.docker.com/linux/ubuntu/dists/focal/pool/stable/amd64/docker-compose-plugin_2.17.2-1~ubuntu.20.04~focal_amd64.deb"@.len() != "https://download.docker.com/linux/ubuntu/dists/focal/pool/stable/amd64/docker-ce-cli_23.0.3-1~ubuntu.20.04~focal_amd64.deb"@.len());
    assert("https://download.docker.com/linux/ubuntu/dists/focal/pool/stable/amd64/docker-compose-plugin_2.17.2-1~ubuntu.20.04~focal_amd64.deb"@.len() != "https://download.docker.com/linux/ubuntu/dists/focal/pool/stable/amd64/docker-ce_23.0.3-1~ubuntu.20.04~focal_amd64.deb"@.len());
    assert("https://download.docker.com/linux/ubuntu/dists/jammy/pool/stable/amd64/containerd.io_1.6.20-1_amd64.deb"@[47] != "https://download.docker.com/linux/ubuntu/dists/focal/pool/stable/amd64/containerd.io_1.6.20-1_amd64.deb"@[47]);
    assert("https://download.docker.com/linux/ubuntu/dists/jammy/pool/stable/amd64/containerd.io_1.6.20-1_amd64.deb"@.len() != "https://download.docker.com/linux/ubuntu/dists/focal/pool/stable/amd64/docker-buildx-plugin_0.10.4-1~ubuntu.20.04~focal_amd64.deb"@.len());
    assert("https://download.docker.com/linux/ubuntu/dists/jammy/pool/stable/amd64/containerd.io_1.6.20-1_amd64.deb"@.len() != "https://download.docker.com/linux/ubuntu/dists/focal/pool/stable/amd64/docker-ce-cli_23.0.3-1~ubuntu.20.04~focal_amd64.deb"@.len());
    assert("https://download.docker.com/linux/ubuntu/dists/jammy/pool/stable/amd64/containerd.io_1.6.20-1_amd64.deb"@.len() != "https://download.docker.com/linux/ubuntu/dists/focal/pool/stable/amd64/docker-ce_23.0.3-1~ubuntu.20.04~focal_amd64.deb"@.len());
    assert("https://download.docker.com/linux/ubuntu/dists/jammy/pool/stable/amd64/containerd.io_1.6.20-1_amd64.deb"@.len() != "https://download.docker.com/linux/ubuntu/dists/focal/pool/stable/amd64/docker-compose-plugin_2.17.2-1~ubuntu.20.04~focal_amd64.deb"@.len());
    assert("https://download.docker.com/linux/ubuntu/dists/jammy/pool/stable/amd64/docker-buildx-plugin_0.10.4-1~ubuntu.22.04~jammy_amd64.deb"@.len() != "https://download.docker.com/linux/ubuntu/dists/focal/pool/stable/amd64/containerd.io_1.6.20-1_amd64.deb"@.len());
    assert("https://download.docker.com/linux/ubuntu/dists/jammy/pool/stable/amd64/docker-buildx-plugin_0.10.4-1~ubuntu.22.04~jammy_amd64.deb"@[47] != "https://download.docker.com/linux/ubuntu/dists/focal/pool/stable/amd64/docker-buildx-plugin_0.10.4-1~ubuntu.20.04~focal_amd64.deb"@[47]);
    assert("https://download.docker.com/linux/ubuntu/dists/jammy/pool/stable/amd64/docker-buildx-plugin_0.10.4-1~ubuntu.22.04~jammy_amd64.deb"@.len() != "https://download.docker.com/linux/ubuntu/dists/focal/pool/stable/amd64/docker-ce-cli_23.0.3-1~ubuntu.20.04~focal_amd64.deb"@.len());
    assert("https://download.docker.com/linux/ubuntu/dists/jammy/pool/stable/amd64/docker-buildx-plugin_0.10.4-1~ubuntu.22.04~jammy_amd64.deb"@.len() != "https://download.docker.com/linux/ubuntu/dists/focal/pool/stable/amd64/docker-ce_23.0.3-1~ubuntu.20.04~focal_amd64.deb"@.len());
    assert("https://download.docker.com/linux/ubuntu/dists/jammy/pool/stable/amd64/docker-buildx-plugin_0.10.4-1~ubuntu.22.04~jammy_amd64.deb"@.len() != "https://download.docker.com/linux/ubuntu/dists/focal/pool/stable/amd64/docker-compose-plugin_2.17.2-1~ubuntu.20.04~focal_amd64.deb"@.len());
    assert("https://download.docker.com/linux/ubuntu/dists/jammy/pool/stable/amd64/docker-buildx-plugin_0.10.4-1~ubuntu.22.04~jammy_amd64.deb"@.len() != "https://download.docker.com/linux/ubuntu/dists/jammy/pool/stable/amd64/containerd.io_1.6.20-1_amd64.deb"@.len());
    assert("https://download.docker.com/linux/ubuntu/dists/jammy/pool/stable/amd64/docker-ce-cli_23.0.3-1~ubuntu.22.04~jammy_amd64.deb"@.len() != "https://download.docker.com/linux/ubuntu/dists/focal/pool/stable/amd64/containerd.io_1.6.20-1_amd64.deb"@.len());
    assert("https://download.docker.com/linux/ubuntu/dists/jammy/pool/stable/amd64/docker-ce-cli_23.0.3-1~ubuntu.22.04~jammy_amd64.deb"@.len() != "https://download.docker.com/linux/ubuntu/dists/focal/pool/stable/amd64/docker-buildx-plugin_0.10.4-1~ubuntu.20.04~focal_amd64.deb"@.len());
    assert("https://download.docker.com/linux/ubuntu/dists/jammy/pool/stable/amd64/docker-ce-cli_23.0.3-1~ubuntu.22.04~jammy_amd64.deb"@[47] != "https://download.docker.com/linux/ubuntu/dists/focal/pool/stable/amd64/docker-ce-cli_23.0.3-1~ubuntu.20.04~focal_amd64.deb"@[47]);
    assert("https://download.docker.com/linux/ubuntu/dists/jammy/pool/stable/amd64/docker-ce-cli_23.0.3-1~ubuntu.22.04~jammy_amd64.deb"@.len() != "https://download.docker.com/linux/ubuntu/dists/focal/pool/stable/amd64/docker-ce_23.0.3-1~ubuntu.20.04~focal_amd64.deb"@.len());
    assert("https://download.docker.com/linux/ubuntu/dists/jammy/pool/stable/amd64/docker-ce-cli_23.0.3-1~ubuntu.22.04~jammy_amd64.deb"@.len() != "https://download.docker.com/linux/ubuntu/dists/focal/pool/stable/amd64/docker-compose-plugin_2.17.2-1~ubuntu.20.04~focal_amd64.deb"@.len());
    assert("https://download.docker.com/linux/ubuntu/dists/jammy/pool/stable/amd64/docker-ce-cli_23.0.3-1~ubuntu.22.04~jammy_amd64.deb"@.len() != "https://download.docker.com/linux/ubuntu/dists/jammy/pool/stable/amd64/containerd.io_1.6.20-1_amd64.deb"@.len());
    assert("https://download.docker.com/linux/ubuntu/dists/jammy/pool/stable/amd64/docker-ce-cli_23.0.3-1~ubuntu.22.04~jammy_amd64.deb"@.len() != "https://download.docker.com/linux/ubuntu/dists/jammy/pool/stable/amd64/docker-buildx-plugin_0.10.4-1~ubuntu.22.04~jammy_amd64.deb"@.len());
    assert("https://download.docker.com/linux/ubuntu/dists/jammy/pool/stable/amd64/docker-ce_23.0.3-1~ubuntu.22.04~jammy_amd64.deb"@.len() != "https://download.docker.com/linux/ubuntu/dists/focal/pool/stable/amd64/containerd.io_1.6.20-1_amd64.deb"@.len());
    assert("https://download.docker.com/linux/ubuntu/dists/jammy/pool/stable/amd64/docker-ce_23.0.3-1~ubuntu.22.04~jammy_amd64.deb"@.len() != "https://download.docker.com/linux/ubuntu/dists/focal/pool/stable/amd64/docker-buildx-plugin_0.10.4-1~ubuntu.20.04~focal_amd64.deb"@.len());
    assert("https://download.docker.com/linux/ubuntu/dists/jammy/pool/stable/amd64/docker-ce_23.0.3-1~ubuntu.22.04~jammy_amd64.deb"@.len() != "https://download.docker.com/linux/ubuntu/dists/focal/pool/stable/amd64/docker-ce-cli_23.0.3-1~ubuntu.20.04~focal_amd64.deb"@.len());
    assert("https://download.docker.com/linux/ubuntu/dists/jammy/pool/stable/amd64/docker-ce_23.0.3-1~ubuntu.22.04~jammy_amd64.deb"@[47] != "https://download.docker.com/linux/ubuntu/dists/focal/pool/stable/amd64/docker-ce_23.0.3-1~ubuntu.20.04~focal_amd64.deb"@[47]);
    assert("https://download.docker.com/linux/ubuntu/dists/jammy/pool/stable/amd64/docker-ce_23.0.3-1~ubuntu.22.04~jammy_amd64.deb"@.len() != "https://download.docker.com/linux/ubuntu/dists/focal/pool/stable/amd64/docker-compose-plugin_2.17.2-1~ubuntu.20.04~focal_amd64.deb"@.len());
    assert("https://download.docker.com/linux/ubuntu/dists/jammy/pool/stable/amd64/docker-ce_23.0.3-1~ubuntu.22.04~jammy_amd64.deb"@.len() != "https://download.docker.com/linux/ubuntu/dists/jammy/pool/stable/amd64/containerd.io_1.6.20-1_amd64.deb"@.len());
    assert("https://download.docker.com/linux/ubuntu/dists/jammy/pool/stable/amd64/docker-ce_23.0.3-1~ubuntu.22.04~jammy_amd64.deb"@.len() != "https://download.docker.com/linux/ubuntu/dists/jammy/pool/stable/amd64/docker-buildx-plugin_0.10.4-1~ubuntu.22.04~jammy_amd64.deb"@.len());
    assert("https://download.docker.com/linux/ubuntu/dists/jammy/pool/stable/amd64/docker-ce_23.0.3-1~ubuntu.22.04~jammy_amd64.deb"@.len() != "https://download.docker.com/linux/ubuntu/dists/jammy/pool/stable/amd64/docker-ce-cli_23.0.3-1~ubuntu.22.04~jammy_amd64.deb"@.len());
    assert("https://download.docker.com/linux/ubuntu/dists/jammy/pool/stable/amd64/docker-compose-plugin_2.17.2-1~ubuntu.22.04~jammy_amd64.deb"@.len() != "https://download.docker.com/linux/ubuntu/dists/focal/pool/stable/amd64/containerd.io_1.6.20-1_amd64.deb"@.len());
    assert("https://download.docker.com/linux/ubuntu/dists/jammy/pool/stable/amd64/docker-compose-plugin_2.17.2-1~ubuntu.22.04~jammy_amd64.deb"@.len() != "https://download.docker.com/linux/ubuntu/dists/focal/pool/stable/amd64/docker-buildx-plugin_0.10.4-1~ubuntu.20.04~focal_amd64.deb"@.len());
    assert("https://download.docker.com/linux/ubuntu/dists/jammy/pool/stable/amd64/docker-compose-plugin_2.17.2-1~ubuntu.22.04~jammy_amd64.deb"@.len() != "https://download.docker.com/linux/ubuntu/dists/focal/pool/stable/amd64/docker-ce-cli_23.0.3-1~ubuntu.20.04~focal_amd64.deb"@.len());
    assert("https://download.docker.com/linux/ubuntu/dists/jammy/pool/stable/amd64/docker-compose-plugin_2.17.2-1~ubuntu.22.04~jammy_amd64.deb"@.len() != "https://download.docker.com/linux/ubuntu/dists/focal/pool/stable/amd64/docker-ce_23.0.3-1~ubuntu.20.04~focal_amd64.deb"@.len());
    assert("https://download.docker.com/linux/ubuntu/dists/jammy/pool/stable/amd64/docker-compose-plugin_2.17.2-1~ubuntu.22.04~jammy_amd64.deb"@[47] != "https://download.docker.com/linux/ubuntu/dists/focal/pool/stable/amd64/docker-compose-plugin_2.17.2-1~ubuntu.20.04~focal_amd64.deb"@[47]);
    assert("https://download.docker.com/linux/ubuntu/dists/jammy/pool/stable/amd64/docker-compose-plugin_2.17.2-1~ubuntu.22.04~jammy_amd64.deb"@.len() != "https://download.docker.com/linux/ubuntu/dists/jammy/pool/stable/amd64/containerd.io_1.6.20-1_amd64.deb"@.len());
    assert("https://download.docker.com/linux/ubuntu/dists/jammy/pool/stable/amd64/docker-compose-plugin_2.17.2-1~ubuntu.22.04~jammy_amd64.deb"@.len() != "https://download.docker.com/linux/ubuntu/dists/jammy/pool/stable/amd64/docker-buildx-plugin_0.10.4-1~ubuntu.22.04~jammy_amd64.deb"@.len());
    assert("https://download.docker.com/linux/ubuntu/dists/jammy/pool/stable/amd64/docker-compose-plugin_2.17.2-1~ubuntu.22.04~jammy_amd64.deb"@.len() != "https://download.docker.com/linux/ubuntu/dists/jammy/pool/stable/amd64/docker-ce-cli_23.0.3-1~ubuntu.22.04~jammy_amd64.deb"@.len());
    assert("https://download.docker.com/linux/ubuntu/dists/jammy/pool/stable/amd64/docker-compose-plugin_2.17.2-1~ubuntu.22.04~jammy_amd64.deb"@.len() != "https://download.docker.com/linux/ubuntu/dists/jammy/pool/stable/amd64/docker-ce_23.0.3-1~ubuntu.22.04~jammy_amd64.deb"@.len());
    assert("https://repo.radeon.com/amdgpu-install/22.40.3/ubuntu/focal/amdgpu-install_5.4.50403-1_all.deb"@.len() != "https://download.docker.com/linux/ubuntu/dists/focal/pool/stable/amd64/containerd.io_1.6.20-1_amd64.deb"@.len());
    assert("https://repo.radeon.com/amdgpu-install/22.40.3/ubuntu/focal/amdgpu-install_5.4.50403-1_all.deb"@.len() != "https://download.docker.com/linux/ubuntu/dists/focal/pool/stable/amd64/docker-buildx-plugin_0.10.4-1~ubuntu.20.04~focal_amd64.deb"@.len());
    assert("https://repo.radeon.com/amdgpu-install/22.40.3/ubuntu/focal/amdgpu-install_5.4.50403-1_all.deb"@.len() != "https://download.docker.com/linux/ubuntu/dists/focal/pool/stable/amd64/docker-ce-cli_23.0.3-1~ubuntu.20.04~focal_amd64.deb"@.len());
    assert("https://repo.radeon.com/amdgpu-install/22.40.3/ubuntu/focal/amdgpu-install_5.4.50403-1_all.deb"@.len() != "https://download.docker.com/linux/ubuntu/dists/focal/pool/stable/amd64/docker-ce_23.0.3-1~ubuntu.20.04~focal_amd64.deb"@.len());
    assert("https://repo.radeon.com/amdgpu-install/22.40.3/ubuntu/focal/amdgpu-install_5.4.50403-1_all.deb"@.len() != "https://download.docker.com/linux/ubuntu/dists/focal/pool/stable/amd64/docker-compose-plugin_2.17.2-1~ubuntu.20.04~focal_amd64.deb"@.len());
    assert("https://repo.radeon.com/amdgpu-install/22.40.3/ubuntu/focal/amdgpu-install_5.4.50403-1_all.deb"@.len() != "https://download.docker.com/linux/ubuntu/dists/jammy/pool/stable/amd64/containerd.io_1.6.20-1_amd64.deb"@.len());
    assert("https://repo.radeon.com/amdgpu-install/22.40.3/ubuntu/focal/amdgpu-install_5.4.50403-1_all.deb"@.len() != "https://download.docker.com/linux/ubuntu/dists/jammy/pool/stable/amd64/docker-buildx-plugin_0.10.4-1~ubuntu.22.04~jammy_amd64.deb"@.len());
    assert("https://repo.radeon.com/amdgpu-install/22.40.3/ubuntu/focal/amdgpu-install_5.4.50403-1_all.deb"@.len() != "https://download.docker.com/linux/ubuntu/dists/jammy/pool/stable/amd64/docker-ce-cli_23.0.3-1~ubuntu.22.04~jammy_amd64.deb"@.len());
    assert("https://repo.radeon.com/amdgpu-install/22.40.3/ubuntu/focal/amdgpu-install_5.4.50403-1_all.deb"@.len() != "https://download.docker.com/linux/ubuntu/dists/jammy/pool/stable/amd64/docker-ce_23.0.3-1~ubuntu.22.04~jammy_amd64.deb"@.len());
    assert("https://repo.radeon.com/amdgpu-install/22.40.3/ubuntu/focal/amdgpu-install_5.4.50403-1_all.deb"@.len() != "https://download.docker.com/linux/ubuntu/dists/jammy/pool/stable/amd64/docker-compose-plugin_2.17.2-1~ubuntu.22.04~jammy_amd64.deb"@.len());
    assert("https://repo.radeon.com/amdgpu-install/22.40.3/ubuntu/jammy/amdgpu-install_5.4.50403-1_all.deb"@.len() != "https://download.docker.com/linux/ubuntu/dists/focal/pool/stable/amd64/containerd.io_1.6.20-1_amd64.deb"@.len());
    assert("https://repo.radeon.com/amdgpu-install/22.40.3/ubuntu/jammy/amdgpu-install_5.4.50403-1_all.deb"@.len() != "https://download.docker.com/linux/ubuntu/dists/focal/pool/stable/amd64/docker-buildx-plugin_0.10.4-1~ubuntu.20.04~focal_amd64.deb"@.len());
    assert("https://repo.radeon.com/amdgpu-install/22.40.3/ubuntu/jammy/amdgpu-install_5.4.50403-1_all.deb"@.len() != "https://download.docker.com/linux/ubuntu/dists/focal/pool/stable/amd64/docker-ce-cli_23.0.3-1~ubuntu.20.04~focal_amd64.deb"@.len());
    assert("https://repo.radeon.com/amdgpu-install/22.40.3/ubuntu/jammy/amdgpu-install_5.4.50403-1_all.deb"@.len() != "https://download.docker.com/linux/ubuntu/dists/focal/pool/stable/amd64/docker-ce_23.0.3-1~ubuntu.20.04~focal_amd64.deb"@.len());
    assert("https://repo.radeon.com/amdgpu-install/22.40.3/ubuntu/jammy/amdgpu-install_5.4.50403-1_all.deb"@.len() != "https://download.docker.com/linux/ubuntu/dists/focal/pool/stable/amd64/docker-compose-plugin_2.17.2-1~ubuntu.20.04~focal_amd64.deb"@.len());
    assert("https://repo.radeon.com/amdgpu-install/22.40.3/ubuntu/jammy/amdgpu-install_5.4.50403-1_all.deb"@.len() != "https://download.docker.com/linux/ubuntu/dists/jammy/pool/stable/amd64/containerd.io_1.6.20-1_amd64.deb"@.len());
    assert("https://repo.radeon.com/amdgpu-install/22.40.3/ubuntu/jammy/amdgpu-install_5.4.50403-1_all.deb"@.len() != "https://download.docker.com/linux/ubuntu/dists/jammy/pool/stable/amd64/docker-buildx-plugin_0.10.4-1~ubuntu.22.04~jammy_amd64.deb"@.len());
    assert("https://repo.radeon.com/amdgpu-install/22.40.3/ubuntu/jammy/amdgpu-install_5.4.50403-1_all.deb"@.len() != "https://download.docker.com/linux/ubuntu/dists/jammy/pool/stable/amd64/docker-ce-cli_23.0.3-1~ubuntu.22.04~jammy_amd64.deb"@.len());
    assert("https://repo.radeon.com/amdgpu-install/22.40.3/ubuntu/jammy/amdgpu-install_5.4.50403-1_all.deb"@.len() != "https://download.docker.com/linux/ubuntu/dists/jammy/pool/stable/amd64/docker-ce_23.0.3-1~ubuntu.22.04~jammy_amd64.deb"@.len());
    assert("https://repo.radeon.com/amdgpu-install/22.40.3/ubuntu/jammy/amdgpu-install_5.4.50403-1_all.deb"@.len() != "https://download.docker.com/linux/ubuntu/dists/jammy/pool/stable/amd64/docker-compose-plugin_2.17.2-1~ubuntu.22.04~jammy_amd64.deb"@.len());
    assert("https://repo.radeon.com/amdgpu-install/22.40.3/ubuntu/jammy/amdgpu-install_5.4.50403-1_all.deb"@[54] != "https://repo.radeon.com/amdgpu-install/22.40.3/ubuntu/focal/amdgpu-install_5.4.50403-1_all.deb"@[54]);
    assert(spec_docker_packages(d).len() == 5);
}

/// The driver installer is AMD's package for the release: its address
/// names the release's code name, followed by the file name.
pub proof fn lemma_driver_follows_release(d: Distribution)
    ensures
        spec_driver_package(d).url == "https://repo.radeon.com/amdgpu-install/22.40.3/ubuntu/"@
            + release_codename(d) + "/"@ + spec_driver_package(d).file_name,
        spec_driver_package(d).file_name == "amdgpu-install_5.4.50403-1_all.deb"@,
{
    reveal_strlit("https://repo.radeon.com/amdgpu-install/22.40.3/ubuntu/");
    reveal_strlit("/");
    reveal_strlit("focal");
    reveal_strlit("jammy");
    reveal_strlit("amdgpu-install_5.4.50403-1_all.deb");
    reveal_strlit("https://repo.radeon.com/amdgpu-install/22.40.3/ubuntu/focal/amdgpu-install_5.4.50403-1_all.deb");
    reveal_strlit("https://repo.radeon.com/amdgpu-install/22.40.3/ubuntu/jammy/amdgpu-install_5.4.50403-1_all.deb");
    let p = spec_driver_package(d);
    assert(p.url =~= "https://repo.radeon.com/amdgpu-install/22.40.3/ubuntu/"@ + release_codename(d) + "/"@
        + p.file_name);
}

} // verus!
