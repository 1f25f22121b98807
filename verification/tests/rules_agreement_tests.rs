use docker_review::parser::{DockerfileParser, Instruction};
use docker_review::rules::dockerfile::{
    CurlBashRule, DockerfileRule, HealthcheckRule, LargeBaseImageRule, LatestTagRule,
    LayerOptimizationRule, LayerOrderRule, MultistageRule, RootUserRule, SecretsInEnvRule,
    VersionPinningRule,
};
use docker_review::rules::{Issue, Severity};
use regex::Regex;

/// What is compared of an issue: severity, line, message and fix.
type Finding = (Severity, Option<usize>, String, Option<String>);

fn findings(issues: Vec<Issue>) -> Vec<Finding> {
    issues.into_iter().map(|i| (i.severity, i.line_number, i.message, i.fix_suggestion)).collect()
}

fn finding(severity: Severity, line: Option<usize>, message: &str, fix: &str) -> Finding {
    (severity, line, message.to_string(), Some(fix.to_string()))
}

fn named<'a>(instructions: &'a [Instruction], name: &str) -> Vec<&'a Instruction> {
    instructions.iter().filter(|i| i.name.eq_ignore_ascii_case(name)).collect()
}

/// The regular expressions that the rules search with.
struct Expressions {
    tagged: Regex,
    secret: Regex,
    apt: Regex,
    pip: Regex,
    pipe: Regex,
}

fn expressions() -> Expressions {
    Expressions {
        tagged: Regex::new(r"^[^:@\s]+:[^@\s]+").unwrap(),
        secret: Regex::new(r"(?i)(password|passwd|secret|api_key|apikey|auth_token|access_token|private_key|credentials?)\s*=").unwrap(),
        apt: Regex::new(r"apt-get\s+install\s+(?:-[^\s]+\s+)*([a-zA-Z][a-zA-Z0-9._+-]*)(?:\s|$)").unwrap(),
        pip: Regex::new(r"pip\s+install\s+(?:-[^\s]+\s+)*([a-zA-Z][a-zA-Z0-9._-]*)(?:\s|$)").unwrap(),
        pipe: Regex::new(r"(curl|wget)\s+[^\|]+\|\s*(sh|bash|zsh|/bin/sh|/bin/bash)").unwrap(),
    }
}

fn expect_latest_tag(instructions: &[Instruction], tagged: &Regex) -> Vec<Finding> {
    let fix = "Pin to a specific version tag (e.g., FROM node:18.17.0-alpine)";
    let common = ["alpine", "ubuntu", "debian", "node", "python", "golang", "rust", "nginx", "redis", "postgres", "mysql"];
    let mut out = Vec::new();
    for i in named(instructions, "FROM") {
        let image = i.arguments.split_whitespace().next().unwrap_or("");
        if image == "scratch" {
            continue;
        }
        let bare = !image.contains('/') && !image.contains(':') && !image.contains('.');
        if bare && !common.contains(&image) {
            continue;
        }
        if image.ends_with(":latest") {
            out.push(finding(Severity::Critical, Some(i.line_number), &format!("Image '{}' explicitly uses ':latest' tag", image), fix));
        } else if !tagged.is_match(image) && !image.contains('@') {
            out.push(finding(Severity::Critical, Some(i.line_number), &format!("Image '{}' has no tag (implicitly uses 'latest')", image), fix));
        }
    }
    out
}

fn expect_root_user(instructions: &[Instruction]) -> Vec<Finding> {
    let fix = "Add a USER instruction to switch to a non-root user (e.g., USER node, USER 1000)";
    match named(instructions, "USER").last() {
        None => vec![finding(Severity::Critical, None, "No USER instruction found - container will run as root", fix)],
        Some(last) => {
            let user = last.arguments.trim().to_lowercase();
            if user == "root" || user == "0" {
                vec![finding(Severity::Critical, Some(last.line_number), "Container explicitly set to run as root", fix)]
            } else {
                vec![]
            }
        }
    }
}

fn expect_layer_order(instructions: &[Instruction]) -> Vec<Finding> {
    let files = ["package.json", "package-lock.json", "yarn.lock", "requirements.txt", "Pipfile", "Pipfile.lock", "Gemfile", "Gemfile.lock", "go.mod", "go.sum", "Cargo.toml", "Cargo.lock", "pom.xml", "build.gradle", "composer.json", "composer.lock"];
    let installs = ["apt-get install", "apk add", "npm install", "npm ci", "yarn install", "pip install", "gem install", "go mod download", "cargo build", "mvn install", "gradle build", "composer install"];
    let mut copy_line = None;
    for i in instructions {
        if i.name == "COPY" || i.name == "ADD" {
            let a = &i.arguments;
            if a.contains(". ") || a == "." || (!files.iter().any(|f| a.contains(f)) && !a.contains("--from=")) {
                copy_line = Some(i.line_number);
            }
        } else if i.name == "RUN" && copy_line.is_some() {
            let a = i.arguments.to_lowercase();
            if installs.iter().any(|c| a.contains(c)) {
                return vec![finding(
                    Severity::Warning,
                    copy_line,
                    "COPY of source files before package installation invalidates cache",
                    "Reorder: 1) System packages, 2) COPY dependency files (package.json, requirements.txt), 3) Install dependencies, 4) COPY source code",
                )];
            }
        }
    }
    vec![]
}

fn expect_healthcheck(instructions: &[Instruction]) -> Vec<Finding> {
    if named(instructions, "HEALTHCHECK").is_empty() {
        vec![finding(
            Severity::Warning,
            None,
            "No HEALTHCHECK instruction - container health cannot be monitored",
            "Add HEALTHCHECK instruction (e.g., HEALTHCHECK --interval=30s CMD curl -f http://localhost/ || exit 1)",
        )]
    } else {
        vec![]
    }
}

fn expect_secrets(instructions: &[Instruction], secret: &Regex) -> Vec<Finding> {
    let fix = "Use runtime environment variables, Docker secrets, or a secrets manager instead";
    let mut out = Vec::new();
    for (name, message) in [
        ("ENV", "Potential secret detected in ENV instruction"),
        ("ARG", "Potential secret detected in ARG instruction (visible in image history)"),
    ] {
        for i in named(instructions, name) {
            if secret.is_match(&i.arguments) {
                out.push(finding(Severity::Critical, Some(i.line_number), message, fix));
            }
        }
    }
    out
}

fn expect_version_pinning(instructions: &[Instruction], apt: &Regex, pip: &Regex) -> Vec<Finding> {
    let fix = "Pin package versions (e.g., 'apt-get install curl=7.68.0-1ubuntu2' or 'pip install requests==2.28.0')";
    let mut out = Vec::new();
    for i in named(instructions, "RUN") {
        let a = i.arguments.to_lowercase();
        if a.contains("apt-get install") && !a.contains('=') && apt.is_match(&a) {
            out.push(finding(Severity::Warning, Some(i.line_number), "apt-get install without version pinning", fix));
        }
        if a.contains("pip install") && !a.contains("-r ") && !a.contains("==") && pip.is_match(&a) {
            out.push(finding(Severity::Warning, Some(i.line_number), "pip install without version pinning", fix));
        }
    }
    out
}

fn expect_multistage(instructions: &[Instruction]) -> Vec<Finding> {
    let commands = ["go build", "cargo build", "mvn package", "gradle build", "npm run build", "yarn build", "make ", "gcc ", "g++ ", "rustc ", "javac "];
    let compiles = instructions.iter().any(|i| {
        i.name == "RUN" && commands.iter().any(|c| i.arguments.to_lowercase().contains(c))
    });
    if named(instructions, "FROM").len() <= 1 && compiles {
        vec![finding(
            Severity::Suggestion,
            None,
            "Single-stage build with compilation detected - consider multi-stage build",
            "Use multi-stage build: compile in one stage, copy binary to minimal runtime image",
        )]
    } else {
        vec![]
    }
}

fn expect_large_base_image(instructions: &[Instruction]) -> Vec<Finding> {
    let large = ["ubuntu", "debian", "centos", "fedora", "amazonlinux", "oraclelinux"];
    let slim = [
        ("ubuntu", "ubuntu:*-slim or alpine"),
        ("debian", "debian:*-slim or alpine"),
        ("node", "node:*-alpine or node:*-slim"),
        ("python", "python:*-alpine or python:*-slim"),
        ("golang", "golang:*-alpine"),
        ("ruby", "ruby:*-alpine or ruby:*-slim"),
    ];
    let mut out = Vec::new();
    for i in named(instructions, "FROM") {
        let image = i.arguments.split_whitespace().next().unwrap_or("");
        let last = image.rsplit('/').next().unwrap_or("");
        let bare = last.split(':').next().unwrap_or("");
        let name = &image[..image.len() - last.len() + bare.len()];
        let lower = bare.to_lowercase();
        let base = lower.as_str();
        if large.iter().any(|l| base == *l) {
            out.push(finding(
                Severity::Suggestion,
                Some(i.line_number),
                &format!("'{}' is a large base image - consider alpine or slim variants", name),
                "Use alpine or slim variants (e.g., node:18-alpine, python:3.11-slim)",
            ));
        } else if !image.contains("alpine") && !image.contains("slim") && !image.contains("distroless") {
            if let Some((_, alternative)) = slim.iter().find(|(n, _)| base == *n) {
                out.push(finding(
                    Severity::Suggestion,
                    Some(i.line_number),
                    &format!("Consider using {} for '{}' to reduce image size", alternative, name),
                    &format!("Use {}", alternative),
                ));
            }
        }
    }
    out
}

fn expect_curl_bash(instructions: &[Instruction], pipe: &Regex) -> Vec<Finding> {
    named(instructions, "RUN")
        .into_iter()
        .filter(|i| pipe.is_match(&i.arguments))
        .map(|i| {
            finding(
                Severity::Critical,
                Some(i.line_number),
                "Piping curl/wget to shell - remote code execution risk",
                "Download the script, verify its contents and checksum, then execute",
            )
        })
        .collect()
}

fn expect_layer_optimization(instructions: &[Instruction]) -> Vec<Finding> {
    let fix = "Combine apt-get update, install, and cleanup in single RUN with && and use --no-install-recommends";
    let mut out = Vec::new();
    let mut install_line = None;
    let mut lean = false;
    for i in instructions.iter().filter(|i| i.name == "RUN") {
        let a = i.arguments.to_lowercase();
        let installs = a.contains("apt-get install");
        if installs {
            install_line = Some(i.line_number);
            lean = lean || a.contains("--no-install-recommends");
        }
        if (a.contains("apt-get clean") || a.contains("rm -rf /var/lib/apt/lists")) && !installs {
            out.push(finding(Severity::Warning, Some(i.line_number), "Cleanup in separate layer doesn't save space - combine with install command", fix));
        }
        if a.contains("apt-get update") && !installs {
            out.push(finding(Severity::Warning, Some(i.line_number), "apt-get update in separate RUN - combine with apt-get install using &&", fix));
        }
    }
    if install_line.is_some() && !lean {
        out.push(finding(
            Severity::Suggestion,
            install_line,
            "apt-get install without --no-install-recommends may install unnecessary packages",
            "Add --no-install-recommends flag to apt-get install",
        ));
    }
    out
}

fn lines() -> Vec<&'static str> {
    vec![
        "FROM scratch", "FROM ubuntu", "FROM ubuntu:20.04", "from Ubuntu:latest AS base", "FROM node", "FROM node:18",
        "FROM node:18-alpine", "FROM node@sha256:abc", "FROM builder", "FROM python:3.11-slim", "FROM gcr.io/distroless/base",
        "FROM my.registry/team/Debian", "FROM registry:5000/golang:1.21", "FROM nodejs", "FROM rubyist/ruby:3", "FROM $BASE",
        "FROM centos:7 as x", "FROM alpine:latest", "FROM :latest", "FROM a:b@c", "FROM nodebuilder",
        "FROM localhost:5000/ubuntu:20.04", "FROM Host:1/Team/Python", "FROM a.b:5/c:d/e:f",
        "USER root", "USER  Root ", "user 0", "USER app", "USER 1000:0", "USER ROOT\u{a0}",
        "COPY . .", "COPY . /app", "COPY .", "ADD src /src", "COPY package.json ./", "COPY --from=build /a /b", "copy . .",
        "COPY go.mod go.sum ./", "ADD https://x/y.tar.gz /", "COPY ./ /srv", "COPY a.b c",
        "RUN apt-get update", "RUN apt-get update && apt-get install -y curl", "RUN APT-GET INSTALL -y --no-install-recommends git",
        "RUN apt-get install -y curl=7.68.0", "RUN apt-get install -y", "RUN apt-get  install curl", "RUN apt-get clean",
        "RUN rm -rf /var/lib/apt/lists/*", "RUN apt-get install -y a && apt-get clean", "run apt-get install -y x",
        "RUN pip install flask", "RUN pip install flask==2.0", "RUN pip install -r requirements.txt", "RUN pip3 install --upgrade pip",
        "RUN npm ci", "RUN npm install && npm run build", "RUN make all", "RUN make", "RUN go build -o app", "RUN Cargo Build",
        "RUN yarn install", "RUN apk add --no-cache curl", "RUN curl -sSL https://x | bash", "RUN wget -qO- https://x |sh",
        "RUN curl https://x > f", "RUN curl | sh", "RUN echo a | curl x | zsh", "RUN gcc -o a a.c", "RUN javac A.java \\",
        "ENV PASSWORD=x", "ENV Api_Key = y", "ENV PORT=80", "ENV SECRET_FILE /run/s", "ARG TOKEN=1", "ARG AUTH_TOKEN=1",
        "ARG credentials=\"a\"", "ENV PATH=$PATH:/x", "arg private_key=", "ENV passwd =1",
        "HEALTHCHECK CMD true", "healthcheck none", "CMD [\"x\"]", "WORKDIR /app", "EXPOSE 80", "# RUN make all", "", "  continued",
    ]
}

#[test]
fn each_rule_agrees_with_its_description_on_generated_scripts() {
    let lines = lines();
    let e = expressions();
    let mut seed: u64 = 0x9E3779B97F4A7C15;
    for round in 0..600 {
        let mut content = String::new();
        for _ in 0..(round % 9) {
            seed ^= seed << 13;
            seed ^= seed >> 7;
            seed ^= seed << 17;
            content.push_str(lines[(seed % lines.len() as u64) as usize]);
            content.push('\n');
        }
        let parser = DockerfileParser::parse_content(&content);
        let i = &parser.instructions;
        assert_eq!(findings(LatestTagRule.check(&parser, None)), expect_latest_tag(i, &e.tagged), "{:?}", content);
        assert_eq!(findings(RootUserRule.check(&parser, None)), expect_root_user(i), "{:?}", content);
        assert_eq!(findings(LayerOrderRule.check(&parser, None)), expect_layer_order(i), "{:?}", content);
        assert_eq!(findings(HealthcheckRule.check(&parser, None)), expect_healthcheck(i), "{:?}", content);
        assert_eq!(findings(SecretsInEnvRule.check(&parser, None)), expect_secrets(i, &e.secret), "{:?}", content);
        assert_eq!(findings(VersionPinningRule.check(&parser, None)), expect_version_pinning(i, &e.apt, &e.pip), "{:?}", content);
        assert_eq!(findings(MultistageRule.check(&parser, None)), expect_multistage(i), "{:?}", content);
        assert_eq!(findings(LargeBaseImageRule.check(&parser, None)), expect_large_base_image(i), "{:?}", content);
        assert_eq!(findings(CurlBashRule.check(&parser, None)), expect_curl_bash(i, &e.pipe), "{:?}", content);
        assert_eq!(findings(LayerOptimizationRule.check(&parser, None)), expect_layer_optimization(i), "{:?}", content);
    }
}
