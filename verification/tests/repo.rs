use agent_tools_core::repo::{
    canonical_if_exists, describe_canonicalize_failure, detected_or_cwd, git_marker_path,
    repo_override,
    walk_step, PathStatus, WalkStep,
};
use agent_tools_core::{RepoError, REPO_ENV};
use std::io::{Error, ErrorKind};

/// Drive the walk from `start`, with `roots` as the directories that hold
/// a `.git` entry.
fn walk(start: &str, roots: &[&str]) -> Option<String> {
    let mut dir = start.to_string();
    loop {
        let has_git = roots.contains(&dir.as_str());
        match walk_step(dir, has_git) {
            WalkStep::Found(root) => return Some(root),
            WalkStep::Next(parent) => dir = parent,
            WalkStep::Exhausted => return None,
        }
    }
}

#[test]
fn finds_git_dir_from_nested_start() {
    assert_eq!(
        walk("/tmp/t1/repo/src/deep", &["/tmp/t1/repo"]),
        Some("/tmp/t1/repo".to_string())
    );
}

#[test]
fn git_file_counts_as_root() {
    assert_eq!(
        walk("/tmp/t2/worktree", &["/tmp/t2/worktree"]),
        Some("/tmp/t2/worktree".to_string())
    );
}

#[test]
fn nearest_root_wins_for_nested_repos() {
    assert_eq!(
        walk("/tmp/t3/outer/inner/x", &["/tmp/t3/outer", "/tmp/t3/outer/inner"]),
        Some("/tmp/t3/outer/inner".to_string())
    );
}

#[test]
fn no_git_means_none() {
    assert_eq!(walk("/tmp/t4/plain", &[]), None);
    assert_eq!(walk("plain/sub", &[]), None);
}

#[test]
fn walk_step_moves_to_the_parent() {
    assert_eq!(
        walk_step("/a/b".to_string(), false),
        WalkStep::Next("/a".to_string())
    );
    assert_eq!(walk_step("/a".to_string(), false), WalkStep::Next("/".to_string()));
    assert_eq!(walk_step("/".to_string(), false), WalkStep::Exhausted);
    assert_eq!(walk_step("a".to_string(), false), WalkStep::Next("".to_string()));
    assert_eq!(walk_step("".to_string(), false), WalkStep::Exhausted);
    assert_eq!(
        walk_step("/a/b".to_string(), true),
        WalkStep::Found("/a/b".to_string())
    );
}

#[test]
fn explicit_existing_path_is_canonical() {
    let resolved =
        canonical_if_exists("/tmp/t5/./repo".to_string(), PathStatus::Exists(Ok("/tmp/t5/repo".to_string())));
    assert_eq!(resolved.unwrap(), "/tmp/t5/repo");
}

#[test]
fn explicit_missing_path_passes_through() {
    let missing = "/tmp/t6/does-not-exist".to_string();
    assert_eq!(
        canonical_if_exists(missing.clone(), PathStatus::Missing).unwrap(),
        missing
    );
}

#[test]
fn existing_path_that_cannot_be_canonicalized_is_an_error() {
    let r = canonical_if_exists(
        "/tmp/t7/loop".to_string(),
        PathStatus::Exists(Err(Error::new(ErrorKind::PermissionDenied, "denied"))),
    );
    match r {
        Err(RepoError::Canonicalize { path, source }) => {
            assert_eq!(path, "/tmp/t7/loop");
            assert_eq!(source.kind(), ErrorKind::PermissionDenied);
        }
        other => panic!("unexpected {other:?}"),
    }
}

#[test]
fn precedence_explicit_env_detected_cwd() {
    let repo = "/tmp/t8/repo".to_string();
    let nested = "/tmp/t8/repo/src/inner".to_string();
    let env_repo = "/tmp/t8/env-repo".to_string();
    let explicit = "/tmp/t8/explicit".to_string();
    let plain = "/tmp/t8/plain".to_string();
    let roots = [repo.as_str()];

    // detected root from cwd
    assert_eq!(repo_override(None, None), None);
    assert_eq!(detected_or_cwd(Ok(nested.clone()), walk(&nested, &roots)).unwrap(), repo);

    // env beats detection
    assert_eq!(repo_override(None, Some(env_repo.clone())), Some(env_repo.clone()));

    // explicit beats env
    assert_eq!(
        repo_override(Some(explicit.clone()), Some(env_repo.clone())),
        Some(explicit.clone())
    );

    // empty env is ignored
    assert_eq!(repo_override(None, Some(String::new())), None);
    assert_eq!(detected_or_cwd(Ok(nested.clone()), walk(&nested, &roots)).unwrap(), repo);

    // cwd fallback when no .git above
    assert_eq!(detected_or_cwd(Ok(plain.clone()), walk(&plain, &roots)).unwrap(), plain);
}

#[test]
fn explicit_empty_path_is_still_explicit() {
    assert_eq!(
        repo_override(Some(String::new()), Some("/env".to_string())),
        Some(String::new())
    );
}

#[test]
fn repo_env_name() {
    assert_eq!(REPO_ENV, "AGENT_REPO");
}

#[test]
fn repo_error_converts_to_io_error() {
    let err = RepoError::Canonicalize {
        path: "/nope".to_string(),
        source: std::io::Error::new(std::io::ErrorKind::NotFound, "gone"),
    };
    let io: std::io::Error = err.into();
    assert_eq!(io.kind(), std::io::ErrorKind::NotFound);
    assert!(io.to_string().contains("/nope"));
}

#[test]
fn canonicalize_error_message_names_path_and_source() {
    let err = RepoError::Canonicalize {
        path: "/nope".to_string(),
        source: Error::new(ErrorKind::NotFound, "gone"),
    };
    assert_eq!(err.to_string(), "cannot canonicalize repo path /nope: gone");
    let io: Error = err.into();
    assert_eq!(io.to_string(), "cannot canonicalize repo path /nope: gone");
    assert_eq!(
        describe_canonicalize_failure("/x", "why"),
        "cannot canonicalize repo path /x: why"
    );
}

#[test]
fn current_dir_error_converts_to_its_source() {
    let err = RepoError::CurrentDir(Error::new(ErrorKind::NotFound, "no cwd"));
    assert_eq!(err.to_string(), "cannot determine current directory: no cwd");
    let io: Error = err.into();
    assert_eq!(io.kind(), ErrorKind::NotFound);
    assert_eq!(io.to_string(), "no cwd");
}

#[test]
fn every_step_up_is_a_leading_part() {
    let mut dir = "/tmp/t9/a/b/c".to_string();
    loop {
        match walk_step(dir.clone(), false) {
            WalkStep::Next(parent) => {
                assert!(parent.len() < dir.len());
                assert!(dir.starts_with(&parent));
                dir = parent;
            }
            WalkStep::Exhausted => break,
            WalkStep::Found(_) => unreachable!(),
        }
    }
    assert_eq!(dir, "/");
}

#[test]
fn converted_canonicalize_error_keeps_kind_and_message() {
    let err = RepoError::Canonicalize {
        path: "/x".to_string(),
        source: Error::new(ErrorKind::PermissionDenied, "denied"),
    };
    let io = err.into_io_error();
    assert_eq!(io.kind(), ErrorKind::PermissionDenied);
    assert_eq!(io.to_string(), "cannot canonicalize repo path /x: denied");
}

#[test]
fn unreadable_cwd_is_a_current_dir_error() {
    let r = detected_or_cwd(Err(Error::new(ErrorKind::NotFound, "gone")), None);
    match r {
        Err(RepoError::CurrentDir(source)) => {
            assert_eq!(source.kind(), ErrorKind::NotFound);
            assert_eq!(source.to_string(), "gone");
        }
        other => panic!("unexpected {other:?}"),
    }
}

#[test]
fn marker_is_dot_git_inside_the_directory() {
    assert_eq!(git_marker_path("/tmp/t10/repo"), "/tmp/t10/repo/.git");
    assert_eq!(git_marker_path("/tmp/t10/repo/"), "/tmp/t10/repo/.git");
    assert_eq!(git_marker_path("rel"), "rel/.git");
    assert_eq!(git_marker_path(""), ".git");
}

#[test]
fn resolved_path_resolves_to_itself() {
    let first = canonical_if_exists(
        "/tmp/t11/./repo".to_string(),
        PathStatus::Exists(Ok("/tmp/t11/repo".to_string())),
    )
    .unwrap();
    let chosen = repo_override(Some(first.clone()), Some("/env".to_string())).unwrap();
    let again = canonical_if_exists(chosen, PathStatus::Exists(Ok(first.clone()))).unwrap();
    assert_eq!(again, first);
    let missing = canonical_if_exists("/tmp/t11/none".to_string(), PathStatus::Missing).unwrap();
    let again = canonical_if_exists(repo_override(Some(missing.clone()), None).unwrap(), PathStatus::Missing).unwrap();
    assert_eq!(again, missing);
}

#[test]
fn explicit_path_ignores_env_and_cwd() {
    for env in [None, Some(String::new()), Some("/env".to_string())] {
        assert_eq!(repo_override(Some("/x".to_string()), env), Some("/x".to_string()));
    }
}
