//! Container images for trying dotfiles out: what each distribution calls
//! its package commands, and the template of the Dockerfile.

use vstd::prelude::*;
use crate::dedent::{dedent, dedented};
use crate::state::opt_text;
use crate::text::{chain3, join, joined_with, replace_all, replaced, texts};

verus! {

/// How Docker's command-line client is installed on Debian, before its
/// shared indentation is removed.
pub const DEBIAN_DOCKER_INSTALL: &'static str = r#"
            sudo install -m 0755 -d /etc/apt/keyrings && \\
            sudo curl -fsSL https://download.docker.com/linux/debian/gpg -o /etc/apt/keyrings/docker.asc && \\
            sudo chmod a+r /etc/apt/keyrings/docker.asc && \\
            echo \\
                "deb [arch=$(dpkg --print-architecture) signed-by=/etc/apt/keyrings/docker.asc] https://download.docker.com/linux/debian \\
                $(. /etc/os-release && echo "$VERSION_CODENAME") stable" | \\
                sudo tee /etc/apt/sources.list.d/docker.list > /dev/null && \\
            sudo apt-get update -y && \\
            sudo apt-get install docker-ce-cli -y
            "#;

/// How Docker's command-line client is installed on Ubuntu.
pub const UBUNTU_DOCKER_INSTALL: &'static str = r#"
            sudo install -m 0755 -d /etc/apt/keyrings && \\
            sudo curl -fsSL https://download.docker.com/linux/ubuntu/gpg -o /etc/apt/keyrings/docker.asc && \\
            sudo chmod a+r /etc/apt/keyrings/docker.asc && \\
            echo \\
                "deb [arch=$(dpkg --print-architecture) signed-by=/etc/apt/keyrings/docker.asc] https://download.docker.com/linux/ubuntu \\
                $(. /etc/os-release && echo "$VERSION_CODENAME") stable" | \\
                sudo tee /etc/apt/sources.list.d/docker.list > /dev/null && \\
            sudo apt-get update -y && \\
            sudo apt-get install docker-ce-cli -y
            "#;

/// How Docker's command-line client is installed where `dnf` is the package
/// manager.
pub const DNF_DOCKER_INSTALL: &'static str = r#"
            sudo dnf -y install dnf-plugins-core && \\
            sudo dnf config-manager --add-repo https://download.docker.com/linux/rhel/docker-ce.repo && \\
            sudo dnf install -y docker-ce-cli
            "#;

/// How Docker's command-line client is installed where `microdnf` is the
/// package manager.
pub const MICRODNF_DOCKER_INSTALL: &'static str = r#"
            sudo microdnf -y install dnf-plugins-core && \\
            sudo dnf config-manager --add-repo https://download.docker.com/linux/rhel/docker-ce.repo && \\
            sudo microdnf install -y docker-ce-cli
            "#;

/// The Dockerfile, with a placeholder, marked `<$>`, wherever a value is
/// filled in.
pub const DOCKERFILE_TEMPLATE: &'static str = r#"
        # NOTE: This Dockerfile is generated. Do not edit manually.
        FROM <$>base_image
        SHELL ["/bin/bash", "-euo", "pipefail", "-c"]
        ENV SHELL=/bin/bash

        RUN <$>mirror_configure && \
            <$>update && \
            <$>install_sudo

        ARG USERNAME=<$>username
        ARG USER_UID=1000
        ARG USER_GID=$USER_UID

        RUN groupadd --gid $USER_GID $USERNAME \
            && useradd --uid $USER_UID --gid $USER_GID -m $USERNAME \
            && echo $USERNAME ALL=\(root\) NOPASSWD:ALL > /etc/sudoers.d/$USERNAME \
            && chmod 0440 /etc/sudoers.d/$USERNAME

        USER $USERNAME

        WORKDIR <$>workdir

        ENV HOME=<$>workdir

        <$>tool_stages

        # SecretsUsedInArgOrEnv: Do not use ARG or ENV instructions for sensitive data
        ARG PASSWORD=admin
        RUN echo "${USERNAME}:${PASSWORD}" | sudo chpasswd
    "#;

/// The commands of one distribution.
#[derive(Clone, Debug, PartialEq, Eq)]
pub struct DistroSpecificCommands {
    pub pkg_install: String,
    pub pkg_install_flags: Option<String>,
    pub pkg_update: String,
    pub docker_install: String,
    pub gcc_package: String,
    pub sysutils_packages: Vec<String>,
    pub mirror_setup: String,
}

/// `DistroSpecificCommands` as a mathematical value.
pub struct CommandsView {
    pub pkg_install: Seq<char>,
    pub pkg_install_flags: Option<Seq<char>>,
    pub pkg_update: Seq<char>,
    pub docker_install: Seq<char>,
    pub gcc_package: Seq<char>,
    pub sysutils_packages: Seq<Seq<char>>,
    pub mirror_setup: Seq<char>,
}

impl View for DistroSpecificCommands {
    type V = CommandsView;

    open spec fn view(&self) -> CommandsView {
        CommandsView {
            pkg_install: self.pkg_install@,
            pkg_install_flags: opt_text(self.pkg_install_flags),
            pkg_update: self.pkg_update@,
            docker_install: self.docker_install@,
            gcc_package: self.gcc_package@,
            sysutils_packages: texts(self.sysutils_packages@),
            mirror_setup: self.mirror_setup@,
        }
    }
}

/// One distribution: its name, its package format, its base image and its
/// commands.
#[derive(Clone, Debug, PartialEq, Eq)]
pub struct DistroConfig {
    pub name: String,
    pub pkg_format: String,
    pub base_image: String,
    pub commands: DistroSpecificCommands,
}

/// `DistroConfig` as a mathematical value.
pub struct DistroConfigView {
    pub name: Seq<char>,
    pub pkg_format: Seq<char>,
    pub base_image: Seq<char>,
    pub commands: CommandsView,
}

impl View for DistroConfig {
    type V = DistroConfigView;

    open spec fn view(&self) -> DistroConfigView {
        DistroConfigView {
            name: self.name@,
            pkg_format: self.pkg_format@,
            base_image: self.base_image@,
            commands: self.commands@,
        }
    }
}

/// The distributions that are known.
#[derive(Clone, Copy, Debug, PartialEq, Eq, Structural)]
pub enum Distro {
    Alma,
    AlmaMinimal,
    Debian,
    Ubuntu,
    Fedora,
}

/// The command that installs `packages`: the install command, the packages
/// with a blank between each two, and the flags where there are any.
pub open spec fn install_line(config: DistroConfigView, packages: Seq<Seq<char>>) -> Seq<char> {
    let command = config.commands.pkg_install + " "@ + joined_with(packages, " "@);
    match config.commands.pkg_install_flags {
        Some(flags) => command + " "@ + flags,
        None => command,
    }
}

/// The command that installs `packages` for a user who is root already: the
/// install command without any `sudo ` in it. A distribution with install
/// flags keeps its install command as it is.
pub open spec fn install_nosudo_line(config: DistroConfigView, packages: Seq<Seq<char>>) -> Seq<
    char,
> {
    match config.commands.pkg_install_flags {
        Some(flags) => install_line(config, packages),
        None => replaced(config.commands.pkg_install, "sudo "@, ""@) + " "@ + joined_with(
            packages,
            " "@,
        ),
    }
}

/// The commands shared by the distributions that install with `dnf`.
pub open spec fn rpm_commands() -> CommandsView {
    CommandsView {
        pkg_install: "sudo dnf install -y"@,
        pkg_install_flags: None,
        pkg_update: "dnf update -y"@,
        docker_install: dedented(DNF_DOCKER_INSTALL@),
        gcc_package: "gcc"@,
        sysutils_packages: seq!["procps"@, "iproute"@],
        mirror_setup: "echo \"fastestmirror=True\" >> /etc/dnf/dnf.conf && echo \"max_parallel_downloads=10\" >> /etc/dnf/dnf.conf"@,
    }
}

/// The configuration of Debian.
pub open spec fn debian() -> DistroConfigView {
    DistroConfigView {
        name: "debian"@,
        pkg_format: "deb"@,
        base_image: "debian:bookworm"@,
        commands: CommandsView {
            pkg_install: "sudo apt install -y"@,
            pkg_install_flags: None,
            pkg_update: "apt update && apt upgrade -y"@,
            docker_install: dedented(DEBIAN_DOCKER_INSTALL@),
            gcc_package: "gcc"@,
            sysutils_packages: seq!["procps"@, "iproute2"@],
            mirror_setup: "echo \"Acquire::Retries \"3\";\" > /etc/apt/apt.conf.d/80-retries"@,
        },
    }
}

/// The configuration of Ubuntu.
pub open spec fn ubuntu() -> DistroConfigView {
    DistroConfigView {
        name: "ubuntu"@,
        pkg_format: "deb"@,
        base_image: "ubuntu:22.04"@,
        commands: CommandsView {
            pkg_install: "sudo apt install -y"@,
            pkg_install_flags: None,
            pkg_update: "apt update && apt upgrade -y"@,
            docker_install: dedented(UBUNTU_DOCKER_INSTALL@),
            gcc_package: "gcc"@,
            sysutils_packages: seq!["procps"@, "iproute2"@],
            mirror_setup: "sed -i 's|http://archive.ubuntu.com|http://mirrors.ubuntu.com|g' /etc/apt/sources.list"@,
        },
    }
}

/// The configuration of AlmaLinux.
pub open spec fn alma() -> DistroConfigView {
    DistroConfigView {
        name: "alma"@,
        pkg_format: "rpm"@,
        base_image: "almalinux:9"@,
        commands: CommandsView { pkg_install_flags: Some("--skip-broken"@), ..rpm_commands() },
    }
}

/// The configuration of the minimal image of AlmaLinux.
pub open spec fn alma_minimal() -> DistroConfigView {
    DistroConfigView {
        name: "alma-minimal"@,
        pkg_format: "rpm"@,
        base_image: "almalinux:9-minimal"@,
        commands: CommandsView {
            pkg_install: "sudo microdnf install -y"@,
            pkg_install_flags: None,
            pkg_update: "microdnf update -y"@,
            docker_install: dedented(MICRODNF_DOCKER_INSTALL@),
            mirror_setup: "true"@,
            ..rpm_commands()
        },
    }
}

/// The configuration of Fedora.
pub open spec fn fedora() -> DistroConfigView {
    DistroConfigView {
        name: "fedora"@,
        pkg_format: "rpm"@,
        base_image: "fedora:41"@,
        commands: rpm_commands(),
    }
}

/// The configuration of a distribution.
pub open spec fn config_of(distro: Distro) -> DistroConfigView {
    match distro {
        Distro::Debian => debian(),
        Distro::Ubuntu => ubuntu(),
        Distro::Alma => alma(),
        Distro::AlmaMinimal => alma_minimal(),
        Distro::Fedora => fedora(),
    }
}

fn pair(first: &str, second: &str) -> (r: Vec<String>)
    ensures
        texts(r@) == seq![first@, second@],
{
    let mut r: Vec<String> = Vec::new();
    r.push(first.to_owned());
    r.push(second.to_owned());
    assert(texts(r@) =~= seq![first@, second@]);
    r
}

impl DistroConfig {
    /// The command that installs `packages`.
    pub fn install(self, packages: Vec<String>) -> (r: String)
        ensures
            r@ == install_line(self@, texts(packages@)),
    {
        let pkgs = join(&packages, " ");
        let mut line = chain3(self.commands.pkg_install.as_str(), " ", pkgs.as_str());
        if let Some(flags) = self.commands.pkg_install_flags {
            line.append(" ");
            line.append(flags.as_str());
        }
        line
    }

    /// The command that installs `packages` for a user who is root already.
    pub fn install_nosudo(self, packages: Vec<String>) -> (r: String)
        ensures
            r@ == install_nosudo_line(self@, texts(packages@)),
    {
        let pkgs = join(&packages, " ");
        if let Some(flags) = self.commands.pkg_install_flags {
            let mut line = chain3(self.commands.pkg_install.as_str(), " ", pkgs.as_str());
            line.append(" ");
            line.append(flags.as_str());
            line
        } else {
            let command = replace_all(self.commands.pkg_install.as_str(), "sudo ", "");
            chain3(command.as_str(), " ", pkgs.as_str())
        }
    }
}

/// Makes the configuration of a distribution.
#[derive(Debug)]
pub struct DistroConfigBuilder {
    pub distro: Distro,
}

impl DistroConfigBuilder {
    /// The configuration of the builder's distribution.
    pub fn build(self) -> (r: DistroConfig)
        ensures
            r@ == config_of(self.distro),
    {
        match self.distro {
            Distro::Debian => self.debian_distro_config(),
            Distro::Ubuntu => self.ubuntu_distro_config(),
            Distro::Alma => self.alma_distro_config(),
            Distro::AlmaMinimal => self.alma_minimal_distro_config(),
            Distro::Fedora => self.fedora_distro_config(),
        }
    }

    /// The configuration of Debian.
    pub fn debian_distro_config(self) -> (r: DistroConfig)
        ensures
            r@ == debian(),
    {
        DistroConfig {
            name: "debian".to_owned(),
            pkg_format: "deb".to_owned(),
            base_image: "debian:bookworm".to_owned(),
            commands: DistroSpecificCommands {
                pkg_install: "sudo apt install -y".to_owned(),
                pkg_install_flags: None,
                pkg_update: "apt update && apt upgrade -y".to_owned(),
                docker_install: dedent(DEBIAN_DOCKER_INSTALL),
                gcc_package: "gcc".to_owned(),
                sysutils_packages: pair("procps", "iproute2"),
                mirror_setup: "echo \"Acquire::Retries \"3\";\" > /etc/apt/apt.conf.d/80-retries".to_owned(),
            },
        }
    }

    /// The commands shared by the distributions that install with `dnf`.
    pub fn rpm_base_commands() -> (r: DistroSpecificCommands)
        ensures
            r@ == rpm_commands(),
    {
        DistroSpecificCommands {
            pkg_install: "sudo dnf install -y".to_owned(),
            pkg_install_flags: None,
            pkg_update: "dnf update -y".to_owned(),
            docker_install: dedent(DNF_DOCKER_INSTALL),
            gcc_package: "gcc".to_owned(),
            sysutils_packages: pair("procps", "iproute"),
            mirror_setup: "echo \"fastestmirror=True\" >> /etc/dnf/dnf.conf && echo \"max_parallel_downloads=10\" >> /etc/dnf/dnf.conf".to_owned(),
        }
    }

    /// The configuration of AlmaLinux.
    pub fn alma_distro_config(self) -> (r: DistroConfig)
        ensures
            r@ == alma(),
    {
        let base = Self::rpm_base_commands();
        DistroConfig {
            name: "alma".to_owned(),
            pkg_format: "rpm".to_owned(),
            base_image: "almalinux:9".to_owned(),
            commands: DistroSpecificCommands {
                pkg_install_flags: Some("--skip-broken".to_owned()),
                ..base
            },
        }
    }

    /// The configuration of the minimal image of AlmaLinux.
    pub fn alma_minimal_distro_config(self) -> (r: DistroConfig)
        ensures
            r@ == alma_minimal(),
    {
        let base = Self::rpm_base_commands();
        DistroConfig {
            name: "alma-minimal".to_owned(),
            pkg_format: "rpm".to_owned(),
            base_image: "almalinux:9-minimal".to_owned(),
            commands: DistroSpecificCommands {
                pkg_install: "sudo microdnf install -y".to_owned(),
                pkg_install_flags: None,
                pkg_update: "microdnf update -y".to_owned(),
                docker_install: dedent(MICRODNF_DOCKER_INSTALL),
                mirror_setup: "true".to_owned(),
                ..base
            },
        }
    }

    /// The configuration of Fedora.
    pub fn fedora_distro_config(self) -> (r: DistroConfig)
        ensures
            r@ == fedora(),
    {
        DistroConfig {
            name: "fedora".to_owned(),
            pkg_format: "rpm".to_owned(),
            base_image: "fedora:41".to_owned(),
            commands: Self::rpm_base_commands(),
        }
    }

    /// The configuration of Ubuntu.
    pub fn ubuntu_distro_config(self) -> (r: DistroConfig)
        ensures
            r@ == ubuntu(),
    {
        DistroConfig {
            name: "ubuntu".to_owned(),
            pkg_format: "deb".to_owned(),
            base_image: "ubuntu:22.04".to_owned(),
            commands: DistroSpecificCommands {
                pkg_install: "sudo apt install -y".to_owned(),
                pkg_install_flags: None,
                pkg_update: "apt update && apt upgrade -y".to_owned(),
                docker_install: dedent(UBUNTU_DOCKER_INSTALL),
                gcc_package: "gcc".to_owned(),
                sysutils_packages: pair("procps", "iproute2"),
                mirror_setup: "sed -i 's|http://archive.ubuntu.com|http://mirrors.ubuntu.com|g' /etc/apt/sources.list".to_owned(),
            },
        }
    }
}

/// A value for a placeholder of the template.
#[derive(Clone, Debug, PartialEq, Eq)]
pub struct Binding {
    pub placeholder: String,
    pub value: String,
}

/// The bindings as pairs of placeholder and value, in order.
pub open spec fn binding_views(bindings: Seq<Binding>) -> Seq<(Seq<char>, Seq<char>)> {
    Seq::new(bindings.len(), |i: int| (bindings[i].placeholder@, bindings[i].value@))
}

/// A template with its placeholders filled in: each binding in turn
/// replaces every occurrence of its placeholder in what the bindings before
/// it have made of the template.
pub open spec fn filled(template: Seq<char>, bindings: Seq<(Seq<char>, Seq<char>)>) -> Seq<char>
    decreases bindings.len(),
{
    if bindings.len() == 0 {
        template
    } else {
        replaced(filled(template, bindings.drop_last()), bindings.last().0, bindings.last().1)
    }
}

/// Holds the template of the Dockerfile.
#[derive(Clone, Debug, PartialEq, Eq)]
pub struct DockerFileBuilder {
    pub dockerfile_template_base: String,
}

impl DockerFileBuilder {
    /// The builder with the template in place, its shared indentation
    /// removed.
    pub fn new(self) -> (r: Self)
        ensures
            r.dockerfile_template_base@ == dedented(DOCKERFILE_TEMPLATE@),
    {
        DockerFileBuilder { dockerfile_template_base: dedent(DOCKERFILE_TEMPLATE) }
    }

    /// The Dockerfile: the template with its placeholders filled in.
    pub fn render(&self, bindings: &Vec<Binding>) -> (r: String)
        ensures
            r@ == filled(self.dockerfile_template_base@, binding_views(bindings@)),
    {
        let ghost views = binding_views(bindings@);
        let mut text = self.dockerfile_template_base.clone();
        let mut i: usize = 0;
        while i < bindings.len()
            invariant
                i <= bindings.len(),
                views == binding_views(bindings@),
                text@ == filled(self.dockerfile_template_base@, views.take(i as int)),
            decreases bindings.len() - i,
        {
            proof {
                assert(views.take(i + 1).drop_last() =~= views.take(i as int));
            }
            text = replace_all(
                text.as_str(),
                bindings[i].placeholder.as_str(),
                bindings[i].value.as_str(),
            );
            i += 1;
        }
        assert(views.take(bindings@.len() as int) =~= views);
        text
    }
}

} // verus!
