# diffusion_onekey

A one-step installer of the Stable Diffusion web UI for AMD cards on Ubuntu,
as a verified library (`src/`) and a thin program around it (`app/`).

- `distribution`: which Ubuntu release `/etc/issue.net` names.
- `packages`: the driver and Docker packages to install per release.
- `checksum`: MD5 digests in lowercase hexadecimal.
- `install`: the steps that download, check and install one package.
- `setup`: the steps of the whole deployment.
- `desktop`, `gpu`, `docker`, `command`, `launch`: what is read from the
  system's command outputs, and the commands, scripts and paths written.
- `progress`: the download progress reporter.
- `text`: text search and building.

`app/main.rs` performs the actions that the steps of `install` and `setup`
return and hands back what happened.
