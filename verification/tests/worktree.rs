//! The names of worktrees and where they are.

use lily::domain::worktree::{
    branch_name, branch_slug, compress_slug, conflict_resolution_prompt, fnv1a64, mark_title,
    slug_from, slugify, unmark_title, worktree_directory,
};

#[test]
fn worktree_slugify_basic() {
    assert_eq!(slugify("Redesign  the Sidebar!"), "redesign-the-sidebar");
}

#[test]
fn worktree_compress_strips_vowels_keeping_first_letter() {
    assert_eq!(compress_slug("configurable-sidebar-width"), "cnfgrbl-sdbr-wdth");
}

#[test]
fn worktree_compress_keeps_short_slugs() {
    assert_eq!(compress_slug("fix-login"), "fix-login");
}

#[test]
fn slugs_hold_letters_digits_and_single_dashes() {
    assert_eq!(slugify("  --Fix: login (again)!! "), "fix-login-again");
    assert_eq!(slugify("Añadir 2 cosas"), "aadir-2-cosas");
    assert_eq!(slugify("don't stop"), "dont-stop");
    assert_eq!(slugify("feature/snake_case"), "featuresnakecase");
    assert_eq!(slugify("a -- b\t\u{2003}c"), "a-b-c");
    assert_eq!(slugify("a !! b"), "a-b");
    assert_eq!(slugify("ÄÖÜ"), "");
    assert_eq!(slugify(""), "");
    assert_eq!(slugify("KELVIN \u{212A}"), "kelvin-k");
}

#[test]
fn slug_of_a_slug_is_itself() {
    for name in ["Redesign  the Sidebar!", "a b c", "--x--", "ALL CAPS 42", "Öl & İstanbul \u{212A}"] {
        let slug = slugify(name);
        assert_eq!(slugify(&slug), slug);
    }
}

#[test]
fn slugs_keep_letters_and_digits_in_order() {
    for name in ["Redesign  the Sidebar!", "don't -- stop", "Öl & İstanbul 7", "!!!"] {
        let letters: String =
            name.to_lowercase().chars().filter(|c| c.is_ascii_alphanumeric()).collect();
        assert_eq!(slugify(name).replace('-', ""), letters);
    }
    assert_eq!(slug_from("it's two-fold"), "its-two-fold");
}

#[test]
fn compression_starts_above_twenty_bytes() {
    assert_eq!(compress_slug("aaaaaaaaaaaaaaaaaaaa"), "aaaaaaaaaaaaaaaaaaaa");
    assert_eq!(compress_slug("aaaaaaaaaaaaaaaaaaaaa"), "a");
    assert_eq!(compress_slug("update-all-the-old-issues"), "updt-all-th-old-isss");
}

#[test]
fn branches_and_slugs_go_together() {
    assert_eq!(branch_name("fix-login"), "lily/fix-login");
    assert_eq!(branch_slug("lily/fix-login"), "fix-login");
    assert_eq!(branch_slug("main"), "main");
}

#[test]
fn project_paths_are_hashed() {
    assert_eq!(fnv1a64(""), 0xcbf29ce484222325);
    assert_eq!(fnv1a64("a"), 0xaf63dc4c8601ec8c);
    assert_eq!(fnv1a64("foobar"), 0x85944171f73967e8);
}

#[test]
fn worktrees_are_grouped_by_project() {
    assert_eq!(worktree_directory("/data", "a", "fix"), "/data/worktrees/8601ec8c/fix");
    assert_eq!(worktree_directory("/data/", "foobar", "x"), "/data/worktrees/f73967e8/x");
    assert_ne!(
        worktree_directory("/data", "/srv/one", "fix"),
        worktree_directory("/data", "/srv/two", "fix")
    );
}

#[test]
fn titles_are_marked_once_and_unmarked() {
    assert_eq!(mark_title("fix login"), Some("⬦ worktree: fix login".to_string()));
    assert_eq!(mark_title("⬦ worktree: fix login"), None);
    assert_eq!(unmark_title("⬦ worktree: fix login"), Some("fix login".to_string()));
    assert_eq!(unmark_title("⬦ worktree::: : fix"), Some("fix".to_string()));
    assert_eq!(unmark_title("fix login"), None);
}

#[test]
fn conflict_prompt_names_the_branch() {
    let prompt = conflict_resolution_prompt("main");
    assert_eq!(
        prompt,
        "The rebase onto `main` stopped on conflicts. Resolve them: run `git status` to find \
         conflicted files, understand both sides using the merge base and commit messages, edit \
         the files to resolve every conflict marker, `git add` them, then `git rebase \
         --continue`. Repeat until the rebase completes. Do not abort the rebase. When it is \
         done, tell the user to run /merge-worktree again to complete the merge."
    );
}
