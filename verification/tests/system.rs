use diffusion_onekey::distribution::{parse_distribution, Distribution, DistributionError};
use diffusion_onekey::packages::{docker_packages, driver_package};

#[test]
fn distribution_focal() {
    assert_eq!(parse_distribution("Ubuntu 20.04.5 LTS\n"), Ok(Distribution::Ubuntu2004));
}

#[test]
fn distribution_jammy() {
    assert_eq!(parse_distribution("Ubuntu 22.04.5 LTS\n"), Ok(Distribution::Ubuntu2204));
}

#[test]
fn distribution_unsupported_version() {
    assert_eq!(parse_distribution("Ubuntu 18.04.6 LTS\n"), Err(DistributionError::UnsupportedVersion));
    assert_eq!(parse_distribution("Ubuntu 22.04.2 LTS\n"), Err(DistributionError::UnsupportedVersion));
}

#[test]
fn distribution_unknown() {
    assert_eq!(parse_distribution("Debian GNU/Linux 12\n"), Err(DistributionError::UnknownDistribution));
    assert_eq!(parse_distribution("ub"), Err(DistributionError::UnknownDistribution));
}

#[test]
fn docker_packages_focal() {
    let p = docker_packages(Distribution::Ubuntu2004);
    assert_eq!(p.len(), 5);
    let names: Vec<&str> = p.iter().map(|x| x.describe).collect();
    assert_eq!(names, vec!["containerd", "docker-ce-cli", "docker-ce", "buildx-plugin", "compose-plugin"]);
    assert_eq!(p[0].md5, "99716cf5d655a35badbf5c578afbabfd");
    assert_eq!(p[1].file_name, "docker-ce-cli_23.0.3-1~ubuntu.20.04~focal_amd64.deb");
    assert_eq!(p[4].url, "https://download.docker.com/linux/ubuntu/dists/focal/pool/stable/amd64/docker-compose-plugin_2.17.2-1~ubuntu.20.04~focal_amd64.deb");
}

#[test]
fn docker_packages_jammy() {
    let p = docker_packages(Distribution::Ubuntu2204);
    assert_eq!(p.len(), 5);
    assert_eq!(p[0].md5, "e415b88f5f0d926a9192e804f7d3b693");
    assert_eq!(p[3].md5, "8302dcb5a863e0b1c40fbc86c0a23547");
    assert_eq!(p[2].url, "https://download.docker.com/linux/ubuntu/dists/jammy/pool/stable/amd64/docker-ce_23.0.3-1~ubuntu.22.04~jammy_amd64.deb");
}

#[test]
fn file_name_ends_url_for_every_package() {
    for d in [Distribution::Ubuntu2004, Distribution::Ubuntu2204] {
        let mut all = docker_packages(d);
        all.push(driver_package(d));
        for p in all {
            assert!(p.url.ends_with(&format!("/{}", p.file_name)));
            assert!(!p.file_name.contains('/'));
        }
    }
}

#[test]
fn driver_package_per_release() {
    let focal = driver_package(Distribution::Ubuntu2004);
    assert_eq!(focal.url, "https://repo.radeon.com/amdgpu-install/22.40.3/ubuntu/focal/amdgpu-install_5.4.50403-1_all.deb");
    assert_eq!(focal.md5, "9f59f90b8e9cdd502892b1d052e909b1");
    assert_eq!(focal.describe, "installer");
    let jammy = driver_package(Distribution::Ubuntu2204);
    assert_eq!(jammy.md5, "493c00c81e8dc166b3abde1bf1d04cda");
    assert_eq!(jammy.file_name, "amdgpu-install_5.4.50403-1_all.deb");
}

#[test]
fn jammy_table_is_focal_table_with_release_names() {
    let f = docker_packages(Distribution::Ubuntu2004);
    let j = docker_packages(Distribution::Ubuntu2204);
    for i in 0..5 {
        assert_eq!(f[i].describe, j[i].describe);
        assert_eq!(f[i].url.replace("focal", "jammy").replace("20.04", "22.04"), j[i].url);
        assert_eq!(f[i].file_name.replace("focal", "jammy").replace("20.04", "22.04"), j[i].file_name);
        assert_ne!(f[i].md5, j[i].md5);
    }
}
