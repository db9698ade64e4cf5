//! The environment file of an interactive session: a prompt definition
//! followed by the project's command file, and the location that prompt shows.
use vstd::prelude::*;

use crate::command::RESET;
use crate::text::{join_from, joined_with, names, path_string, path_text};

verus! {

/// Terminal code for blue text.
pub const BLUE: &'static str = "\x1b[34m";

/// Terminal code for green text.
pub const GREEN: &'static str = "\x1b[32m";

/// The marker that the prompt opens with.
pub const MARKER: &'static str = "(numake)";

/// The prompt definition for a project whose root has the path text `root` and
/// the name `base`. The interpreter evaluates the location at every prompt, so
/// it follows the working directory through the session.
pub open spec fn prompt_definition(root: Seq<char>, base: Seq<char>) -> Seq<char> {
    "let-env PROMPT_COMMAND_RIGHT = {\"\"}\nlet-env PROMPT_COMMAND = {\n    [\n        \""@
        + GREEN@ + MARKER@ + RESET@ + " "@ + BLUE@ + "\",\n        (\n            [\""@ + base
        + "\", ($env.PWD | path relative-to \""@ + root
        + "\")]\n            | where { |it| $it != \"\" }\n            | str collect \"/\"\n        ),\n        \""@
        + RESET@ + " \",\n    ] | str collect\n}\n"@
}

/// The directory that holds the command file at `makefile`.
pub open spec fn project_root(makefile: Seq<Seq<char>>) -> Seq<Seq<char>> {
    makefile.drop_last()
}

/// The text of the environment file for the command file at `makefile` with
/// the content `content`: the prompt definition, then the content unchanged.
pub open spec fn session_text(makefile: Seq<Seq<char>>, content: Seq<char>) -> Seq<char> {
    let root = project_root(makefile);
    prompt_definition(path_text(root), root.last()) + content
}

/// The environment file of a session on the command file at `makefile`, whose
/// content is `content`; `None` where the command file stands in the
/// filesystem root, which has no name to show.
pub fn session_config(makefile: &Vec<String>, content: &str) -> (r: Option<String>)
    ensures
        r is Some <==> makefile@.len() >= 2,
        r matches Some(t) ==> t@ == session_text(names(makefile@), content@),
{
    let n = makefile.len();
    if n < 2 {
        return None;
    }
    let mut root: Vec<String> = Vec::new();
    let mut i: usize = 0;
    while i < n - 1
        invariant
            n == makefile@.len(),
            n >= 2,
            i <= n - 1,
            root@ == makefile@.take(i as int),
        decreases n - 1 - i,
    {
        root.push(makefile[i].clone());
        i = i + 1;
        assert(root@ =~= makefile@.take(i as int));
    }
    assert(names(root@) =~= project_root(names(makefile@)));
    let root_text = path_string(&root);
    let base = &root[n - 2];
    let mut r = String::from_str(
        "let-env PROMPT_COMMAND_RIGHT = {\"\"}\nlet-env PROMPT_COMMAND = {\n    [\n        \"",
    );
    r.append(GREEN);
    r.append(MARKER);
    r.append(RESET);
    r.append(" ");
    r.append(BLUE);
    r.append("\",\n        (\n            [\"");
    r.append(base.as_str());
    r.append("\", ($env.PWD | path relative-to \"");
    r.append(root_text.as_str());
    r.append(
        "\")]\n            | where { |it| $it != \"\" }\n            | str collect \"/\"\n        ),\n        \"",
    );
    r.append(RESET);
    r.append(" \",\n    ] | str collect\n}\n");
    r.append(content);
    Some(r)
}

/// The path of `cwd` relative to its ancestor `root`, components joined by `/`.
pub open spec fn relative_text(root: Seq<Seq<char>>, cwd: Seq<Seq<char>>) -> Seq<char> {
    joined_with(cwd.skip(root.len() as int), "/"@)
}

/// The location that the prompt shows: the project's name and the relative
/// path, joined by `/`, where an empty one is left out with its separator.
pub open spec fn prompt_location(base: Seq<char>, rel: Seq<char>) -> Seq<char> {
    if rel.len() == 0 {
        base
    } else if base.len() == 0 {
        rel
    } else {
        base + "/"@ + rel
    }
}

/// The name of the directory `root`, empty for the filesystem root.
pub open spec fn dir_name(root: Seq<Seq<char>>) -> Seq<char> {
    if root.len() == 0 {
        Seq::empty()
    } else {
        root.last()
    }
}

/// The location that the prompt of a session in the project at `root` shows
/// while the working directory is `cwd`; `None` where `cwd` is not inside
/// the project, where the interpreter has no relative path to show.
pub fn location(root: &Vec<String>, cwd: &Vec<String>) -> (r: Option<String>)
    ensures
        r is Some <==> names(root@).len() <= names(cwd@).len() && names(cwd@).take(
            root@.len() as int,
        ) == names(root@),
        r matches Some(t) ==> t@ == prompt_location(
            dir_name(names(root@)),
            relative_text(names(root@), names(cwd@)),
        ),
{
    let n = root.len();
    if n > cwd.len() {
        return None;
    }
    let mut i: usize = 0;
    while i < n
        invariant
            n == root@.len(),
            n <= cwd@.len(),
            i <= n,
            forall|j: int| 0 <= j < i ==> root@[j]@ == cwd@[j]@,
        decreases n - i,
    {
        if root[i] != cwd[i] {
            assert(names(cwd@).take(n as int)[i as int] != names(root@)[i as int]);
            return None;
        }
        i = i + 1;
    }
    assert(names(cwd@).take(n as int) =~= names(root@));
    let rel = join_from(cwd, n, "/");
    assert(names(cwd@).skip(n as int) =~= names(cwd@.skip(n as int)));
    if rel.as_str().is_empty() {
        if n == 0 {
            return Some(String::new());
        }
        return Some(root[n - 1].clone());
    }
    if n == 0 {
        return Some(rel);
    }
    let base = &root[n - 1];
    if base.as_str().is_empty() {
        return Some(rel);
    }
    let mut r = base.clone();
    r.append("/");
    r.append(rel.as_str());
    Some(r)
}

/// At the project root the prompt shows the project's name alone, with no
/// separator after it.
pub proof fn lemma_location_at_root(root: Seq<Seq<char>>)
    ensures
        prompt_location(dir_name(root), relative_text(root, root)) == dir_name(root),
{
    assert(root.skip(root.len() as int) =~= Seq::<Seq<char>>::empty());
}

/// Two levels below the project root the prompt shows the project's name and
/// the two directories below it, each after a `/`.
pub proof fn lemma_location_two_deep(root: Seq<Seq<char>>, a: Seq<char>, b: Seq<char>)
    requires
        root.len() > 0,
        root.last().len() > 0,
    ensures
        prompt_location(dir_name(root), relative_text(root, root + seq![a, b])) == root.last()
            + "/"@ + a + "/"@ + b,
{
    let pair = seq![a, b];
    assert((root + pair).skip(root.len() as int) =~= pair);
    assert(pair.drop_last() =~= seq![a]);
    assert(joined_with(seq![a], "/"@) == a);
    assert(joined_with(pair, "/"@) == a + "/"@ + b);
    reveal_strlit("/");
    assert((a + "/"@ + b).len() > 0);
    assert(a + "/"@ + b + Seq::<char>::empty() =~= a + "/"@ + b);
    assert(root.last() + "/"@ + (a + "/"@ + b) =~= root.last() + "/"@ + a + "/"@ + b);
}

} // verus!
