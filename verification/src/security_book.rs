//! The security book tooling: command plans for building, serving and
//! testing the book, and the checks that its pages and links are sound.

use vstd::prelude::*;
use crate::command_plan::{join_path, path_join, strs, CommandPlan};
use crate::text::{chars_of, concat3, has_prefix, owned, starts_with, string_of};

verus! {

/// Where the book lives inside the workspace.
pub open spec fn book_dir(root: Seq<char>) -> Seq<char> {
    path_join(root, "docs/security-rust/book"@)
}

/// The book's root directory under a workspace root.
pub fn book_root(workspace_root: &str) -> (d: String)
    ensures
        d@ == book_dir(workspace_root@),
{
    join_path(workspace_root, "docs/security-rust/book")
}

/// `mdbook build <passthrough..>` in the book root.
pub fn build_plan(book_root: &str, passthrough: &[String]) -> (p: CommandPlan)
    ensures
        p.program@ == "mdbook"@,
        p.current_dir@ == book_root@,
        p.arg_views() == seq!["build"@] + strs(passthrough@),
        p.env@.len() == 0,
{
    let p = CommandPlan::new("mdbook", book_root).arg("build").args_owned(passthrough);
    assert(seq!["build"@] =~= Seq::<Seq<char>>::empty().push("build"@));
    p
}

/// `mdbook serve <passthrough..>` in the book root.
pub fn preview_plan(book_root: &str, passthrough: &[String]) -> (p: CommandPlan)
    ensures
        p.program@ == "mdbook"@,
        p.current_dir@ == book_root@,
        p.arg_views() == seq!["serve"@] + strs(passthrough@),
        p.env@.len() == 0,
{
    let p = CommandPlan::new("mdbook", book_root).arg("serve").args_owned(passthrough);
    assert(seq!["serve"@] =~= Seq::<Seq<char>>::empty().push("serve"@));
    p
}

/// The packages whose tests the book relies on.
pub open spec fn nextest_packages() -> Seq<Seq<char>> {
    seq!["secure-patterns"@, "exploit-mitigation"@, "runtime-security"@,
        "security-instrumentation"@, "runtime-security-labs"@]
}

/// The example packages the book compiles.
pub open spec fn example_packages() -> Seq<Seq<char>> {
    seq!["security-example-wasm-sandboxing"@, "security-example-network-security"@,
        "security-example-distributed-security"@, "security-example-infrastructure-hardening"@]
}

/// `-p <package>` for each package, in order.
pub open spec fn package_flags(packages: Seq<Seq<char>>) -> Seq<Seq<char>>
    decreases packages.len(),
{
    if packages.len() == 0 {
        Seq::empty()
    } else {
        package_flags(packages.drop_last()) + seq!["-p"@, packages.last()]
    }
}

fn push_package_flags(plan: &mut CommandPlan, packages: &[&str])
    ensures
        final(plan).program == old(plan).program,
        final(plan).current_dir == old(plan).current_dir,
        final(plan).env == old(plan).env,
        final(plan).arg_views() == old(plan).arg_views() + package_flags(packages@.map_values(|s: &str| s@)),
{
    let ghost start = plan.arg_views();
    let mut i: usize = 0;
    while i < packages.len()
        invariant
            i <= packages.len(),
            plan.program == old(plan).program,
            plan.current_dir == old(plan).current_dir,
            plan.env == old(plan).env,
            start == old(plan).arg_views(),
            plan.arg_views() == start + package_flags(packages@.subrange(0, i as int).map_values(|s: &str| s@)),
        decreases packages.len() - i,
    {
        plan.push_arg("-p");
        plan.push_arg(packages[i]);
        proof {
            let prev = packages@.subrange(0, i as int).map_values(|s: &str| s@);
            let next = packages@.subrange(0, i + 1).map_values(|s: &str| s@);
            assert(next.drop_last() =~= prev);
            assert(next.last() == packages@[i as int]@);
            assert(plan.arg_views() =~= start + package_flags(next));
        }
        i = i + 1;
    }
    assert(packages@.subrange(0, i as int) =~= packages@);
}

/// `cargo nextest run -p ..` over the book's test packages.
pub fn nextest_plan(workspace_root: &str) -> (p: CommandPlan)
    ensures
        p.program@ == "cargo"@,
        p.current_dir@ == workspace_root@,
        p.arg_views() == seq!["nextest"@, "run"@] + package_flags(nextest_packages()),
{
    let mut plan = CommandPlan::new("cargo", workspace_root).arg("nextest").arg("run");
    let packages = ["secure-patterns", "exploit-mitigation", "runtime-security",
        "security-instrumentation", "runtime-security-labs"];
    push_package_flags(&mut plan, &packages);
    assert(packages@.map_values(|s: &str| s@) =~= nextest_packages());
    assert(seq!["nextest"@, "run"@] =~= Seq::<Seq<char>>::empty().push("nextest"@).push("run"@));
    plan
}

/// `cargo check -p ..` over the book's example packages.
pub fn check_examples_plan(workspace_root: &str) -> (p: CommandPlan)
    ensures
        p.program@ == "cargo"@,
        p.current_dir@ == workspace_root@,
        p.arg_views() == seq!["check"@] + package_flags(example_packages()),
{
    let mut plan = CommandPlan::new("cargo", workspace_root).arg("check");
    let packages = ["security-example-wasm-sandboxing", "security-example-network-security",
        "security-example-distributed-security", "security-example-infrastructure-hardening"];
    push_package_flags(&mut plan, &packages);
    assert(packages@.map_values(|s: &str| s@) =~= example_packages());
    assert(seq!["check"@] =~= Seq::<Seq<char>>::empty().push("check"@));
    plan
}

/// `cargo test` over the sandbox, smoke-test and storage packages.
pub fn targeted_runtime_checks_plan(workspace_root: &str) -> (p: CommandPlan)
    ensures
        p.program@ == "cargo"@,
        p.current_dir@ == workspace_root@,
        p.arg_views() == seq!["test"@, "-p"@, "strategy-sandbox"@, "-p"@,
            "wasmcloud-smoke-tests"@, "-p"@, "surrealdb-access"@],
{
    let p = CommandPlan::new("cargo", workspace_root).args(&["test", "-p", "strategy-sandbox",
        "-p", "wasmcloud-smoke-tests", "-p", "surrealdb-access"]);
    assert(p.arg_views() =~= seq!["test"@, "-p"@, "strategy-sandbox"@, "-p"@,
        "wasmcloud-smoke-tests"@, "-p"@, "surrealdb-access"@]);
    p
}

/// What a `security-book` invocation asks for.
#[derive(Debug, PartialEq, Eq)]
pub enum BookCommand {
    /// Build the book, forwarding the remaining arguments to mdBook.
    Build(Vec<String>),
    /// Serve the book, forwarding the remaining arguments to mdBook.
    Serve(Vec<String>),
    /// Build the book and run every check it documents.
    Test,
}

/// Chooses the `security-book` subcommand named by the first argument.
pub fn run(args: &[String]) -> (r: Result<BookCommand, String>)
    ensures
        match r {
            Err(e) => if args.len() == 0 {
                e@ == "expected `security-book <build|serve|test>`"@
            } else {
                args[0]@ != "build"@ && args[0]@ != "serve"@ && args[0]@ != "test"@
                    && e@ == "unsupported security-book subcommand `"@ + args[0]@ + "`"@
            },
            Ok(BookCommand::Build(rest)) => args.len() > 0 && args[0]@ == "build"@
                && strs(rest@) == strs(args@.drop_first()),
            Ok(BookCommand::Serve(rest)) => args.len() > 0 && args[0]@ == "serve"@
                && strs(rest@) == strs(args@.drop_first()),
            Ok(BookCommand::Test) => args.len() > 0 && args[0]@ == "test"@,
        },
{
    if args.len() == 0 {
        return Err(owned("expected `security-book <build|serve|test>`"));
    }
    let sub = args[0].as_str();
    let mut rest: Vec<String> = Vec::new();
    let mut i: usize = 1;
    while i < args.len()
        invariant
            1 <= i <= args.len(),
            strs(rest@) == strs(args@.subrange(1, i as int)),
        decreases args.len() - i,
    {
        rest.push(args[i].clone());
        assert(strs(args@.subrange(1, i + 1)) =~= strs(args@.subrange(1, i as int)).push(args@[i as int]@));
        assert(strs(rest@) =~= strs(args@.subrange(1, i as int)).push(args@[i as int]@));
        i = i + 1;
    }
    assert(args@.subrange(1, i as int) =~= args@.drop_first());
    if args[0] == owned("build") {
        Ok(BookCommand::Build(rest))
    } else if args[0] == owned("serve") {
        Ok(BookCommand::Serve(rest))
    } else if args[0] == owned("test") {
        Ok(BookCommand::Test)
    } else {
        Err(concat3("unsupported security-book subcommand `", sub, "`"))
    }
}

/// Links that are not checked against the file system: in-page anchors and
/// external schemes.
pub open spec fn skipped_link(target: Seq<char>) -> bool {
    ||| has_prefix(target, "#"@)
    ||| has_prefix(target, "http://"@)
    ||| has_prefix(target, "https://"@)
    ||| has_prefix(target, "mailto:"@)
    ||| has_prefix(target, "data:"@)
}

/// Whether a link target is left unchecked.
pub fn should_skip_link(target: &str) -> (r: bool)
    ensures
        r == skipped_link(target@),
{
    let t = chars_of(target);
    starts_with(&t, &chars_of("#")) || starts_with(&t, &chars_of("http://"))
        || starts_with(&t, &chars_of("https://")) || starts_with(&t, &chars_of("mailto:"))
        || starts_with(&t, &chars_of("data:"))
}

/// The part of a target before its first `#`, the whole target if it has none.
pub open spec fn before_anchor(target: Seq<char>) -> Seq<char> {
    if exists|i: int| 0 <= i < target.len() && target[i] == '#' {
        let k = choose|i: int| 0 <= i < target.len() && target[i] == '#'
            && forall|j: int| 0 <= j < i ==> target[j] != '#';
        target.subrange(0, k)
    } else {
        target
    }
}

/// Drops the anchor of a link target.
pub fn strip_anchor(target: &str) -> (r: String)
    ensures
        r@ == before_anchor(target@),
{
    let t = chars_of(target);
    let mut i: usize = 0;
    while i < t.len()
        invariant
            t@ == target@,
            i <= t.len(),
            forall|j: int| 0 <= j < i ==> t@[j] != '#',
        decreases t.len() - i,
    {
        if t[i] == '#' {
            let r = string_of(&t.as_slice()[0..i]);
            proof {
                assert(exists|k: int| 0 <= k < t@.len() && t@[k] == '#') by {
                    assert(t@[i as int] == '#');
                }
                let k = choose|k: int| 0 <= k < target@.len() && target@[k] == '#'
                    && forall|j: int| 0 <= j < k ==> target@[j] != '#';
                assert(0 <= i < target@.len() && target@[i as int] == '#'
                    && forall|j: int| 0 <= j < i ==> target@[j] != '#');
                if k < i {
                    assert(t@[k] != '#');
                } else if k > i {
                    assert(target@[i as int] != '#');
                }
                assert(r@ =~= target@.subrange(0, i as int));
            }
            return r;
        }
        i = i + 1;
    }
    string_of(&t)
}

/// The pieces of a path between separators, before the last separator, and
/// the piece after it.
pub open spec fn split_state(s: Seq<char>) -> (Seq<Seq<char>>, Seq<char>)
    decreases s.len(),
{
    if s.len() == 0 {
        (Seq::empty(), Seq::empty())
    } else {
        let (done, cur) = split_state(s.drop_last());
        if s.last() == '/' {
            (if cur.len() > 0 { done.push(cur) } else { done }, Seq::empty())
        } else {
            (done, cur.push(s.last()))
        }
    }
}

/// The non-empty components of a path, in order.
pub open spec fn path_segments(s: Seq<char>) -> Seq<Seq<char>> {
    let (done, cur) = split_state(s);
    if cur.len() > 0 { done.push(cur) } else { done }
}

/// One step of lexical normalisation: `.` is dropped, `..` removes the
/// previous component (nothing above the start), anything else is kept.
pub open spec fn norm_step(acc: Seq<Seq<char>>, seg: Seq<char>) -> Seq<Seq<char>> {
    if seg == "."@ {
        acc
    } else if seg == ".."@ {
        if acc.len() > 0 { acc.drop_last() } else { acc }
    } else {
        acc.push(seg)
    }
}

/// Lexical normalisation of a list of components.
pub open spec fn norm_segments(segs: Seq<Seq<char>>) -> Seq<Seq<char>>
    decreases segs.len(),
{
    if segs.len() == 0 {
        Seq::empty()
    } else {
        norm_step(norm_segments(segs.drop_last()), segs.last())
    }
}

/// Components joined by `/`.
pub open spec fn join_segments(segs: Seq<Seq<char>>) -> Seq<char>
    decreases segs.len(),
{
    if segs.len() == 0 {
        Seq::empty()
    } else if segs.len() == 1 {
        segs[0]
    } else {
        join_segments(segs.drop_last()) + seq!['/'] + segs.last()
    }
}

/// A path with `.` and `..` components resolved lexically: absolute paths
/// keep their root, and `..` never climbs above the start.
pub open spec fn normalized(path: Seq<char>) -> Seq<char> {
    let body = join_segments(norm_segments(path_segments(path)));
    if path.len() > 0 && path[0] == '/' { seq!['/'] + body } else { body }
}

proof fn lemma_split_push(s: Seq<char>, c: char)
    ensures
        split_state(s.push(c)) == (if c == '/' {
            (if split_state(s).1.len() > 0 { split_state(s).0.push(split_state(s).1) } else { split_state(s).0 },
                Seq::<char>::empty())
        } else {
            (split_state(s).0, split_state(s).1.push(c))
        }),
{
    assert(s.push(c).drop_last() =~= s);
}

/// Splits a path into its non-empty components.
fn segments_of(path: &[char]) -> (segs: Vec<Vec<char>>)
    ensures
        segs@.map_values(|v: Vec<char>| v@) == path_segments(path@),
{
    let mut done: Vec<Vec<char>> = Vec::new();
    let mut cur: Vec<char> = Vec::new();
    let mut i: usize = 0;
    while i < path.len()
        invariant
            i <= path.len(),
            (done@.map_values(|v: Vec<char>| v@), cur@) == split_state(path@.subrange(0, i as int)),
        decreases path.len() - i,
    {
        proof {
            assert(path@.subrange(0, i + 1) =~= path@.subrange(0, i as int).push(path@[i as int]));
            lemma_split_push(path@.subrange(0, i as int), path@[i as int]);
        }
        if path[i] == '/' {
            if cur.len() > 0 {
                let ghost before = done@.map_values(|v: Vec<char>| v@);
                done.push(cur);
                assert(done@.map_values(|v: Vec<char>| v@) =~= before.push(old_cur_view(&done)));
            }
            cur = Vec::new();
        } else {
            cur.push(path[i]);
        }
        i = i + 1;
    }
    assert(path@.subrange(0, i as int) =~= path@);
    if cur.len() > 0 {
        let ghost before = done@.map_values(|v: Vec<char>| v@);
        done.push(cur);
        assert(done@.map_values(|v: Vec<char>| v@) =~= before.push(old_cur_view(&done)));
    }
    done
}

spec fn old_cur_view(done: &Vec<Vec<char>>) -> Seq<char> {
    done@.last()@
}

/// The character sequences held by a list of character vectors.
pub open spec fn views(v: Seq<Vec<char>>) -> Seq<Seq<char>> {
    v.map_values(|x: Vec<char>| x@)
}

/// Characters of `body` appended to `out`.
fn extend_chars(out: &mut Vec<char>, body: &[char])
    ensures
        final(out)@ == old(out)@ + body@,
{
    let mut i: usize = 0;
    while i < body.len()
        invariant
            i <= body.len(),
            out@ == old(out)@ + body@.subrange(0, i as int),
        decreases body.len() - i,
    {
        out.push(body[i]);
        assert(body@.subrange(0, i + 1) =~= body@.subrange(0, i as int).push(body@[i as int]));
        i = i + 1;
    }
    assert(body@.subrange(0, i as int) =~= body@);
}

/// Resolves `.` and `..` components lexically, without touching the file
/// system.
pub fn normalize_path(path: &str) -> (r: String)
    ensures
        r@ == normalized(path@),
{
    proof {
        reveal_strlit(".");
        reveal_strlit("..");
    }
    let p = chars_of(path);
    let segs = segments_of(&p);
    let mut acc: Vec<Vec<char>> = Vec::new();
    let mut i: usize = 0;
    while i < segs.len()
        invariant
            i <= segs.len(),
            views(segs@) == path_segments(path@),
            views(acc@) == norm_segments(views(segs@).subrange(0, i as int)),
            "."@ == seq!['.'],
            ".."@ == seq!['.', '.'],
        decreases segs.len() - i,
    {
        let seg = &segs[i];
        let ghost prev = views(acc@);
        proof {
            let sub = views(segs@).subrange(0, i + 1);
            assert(sub.drop_last() =~= views(segs@).subrange(0, i as int));
            assert(sub.last() == segs@[i as int]@);
        }
        if seg.len() == 1 && seg[0] == '.' {
            assert(seg@ =~= "."@);
        } else if seg.len() == 2 && seg[0] == '.' && seg[1] == '.' {
            assert(seg@ =~= ".."@);
            if acc.len() > 0 {
                acc.pop();
                assert(views(acc@) =~= prev.drop_last());
            }
        } else {
            assert(seg@ != "."@ && seg@ != ".."@) by {
                if seg@ == "."@ { assert(seg@.len() == 1); }
                if seg@ == ".."@ { assert(seg@.len() == 2); }
            }
            acc.push(seg.clone());
            assert(views(acc@) =~= prev.push(seg@));
        }
        i = i + 1;
    }
    assert(views(segs@).subrange(0, i as int) =~= views(segs@));
    let mut out: Vec<char> = Vec::new();
    let absolute = p.len() > 0 && p[0] == '/';
    if absolute {
        out.push('/');
    }
    let ghost lead = out@;
    let mut j: usize = 0;
    while j < acc.len()
        invariant
            j <= acc.len(),
            out@ == lead + join_segments(views(acc@).subrange(0, j as int)),
        decreases acc.len() - j,
    {
        let ghost sub = views(acc@).subrange(0, j + 1);
        assert(sub.drop_last() =~= views(acc@).subrange(0, j as int));
        if j > 0 {
            out.push('/');
        }
        extend_chars(&mut out, acc[j].as_slice());
        proof {
            if j == 0 {
                assert(views(acc@).subrange(0, j as int) =~= Seq::<Seq<char>>::empty());
                assert(out@ =~= lead + join_segments(sub));
            } else {
                assert(out@ =~= lead + join_segments(sub));
            }
        }
        j = j + 1;
    }
    assert(views(acc@).subrange(0, j as int) =~= views(acc@));
    proof {
        if !absolute {
            assert(lead =~= Seq::<char>::empty());
            assert(out@ =~= join_segments(views(acc@)));
        }
    }
    string_of(&out)
}

} // verus!

verus! {

/// The first position at or after `i` holding `c`, or -1.
pub open spec fn find_char(s: Seq<char>, i: int, c: char) -> int
    decreases s.len() - i,
{
    if i < 0 || i >= s.len() {
        -1
    } else if s[i] == c {
        i
    } else {
        find_char(s, i + 1, c)
    }
}

/// The first position at or after `i` holding `)` or whitespace, or -1.
pub open spec fn find_target_end(s: Seq<char>, i: int) -> int
    decreases s.len() - i,
{
    if i < 0 || i >= s.len() {
        -1
    } else if s[i] == ')' || crate::text::is_ws(s[i]) {
        i
    } else {
        find_target_end(s, i + 1)
    }
}

/// A Markdown link `[text](target)` opening at `p`: its target and the
/// position after it. The text is non-empty and holds no `]`; the target is
/// non-empty and holds neither `)` nor whitespace.
pub open spec fn link_at(s: Seq<char>, p: int) -> Option<(Seq<char>, int)> {
    if 0 <= p < s.len() && s[p] == '[' {
        let q = find_char(s, p + 1, ']');
        if q > p + 1 && q + 1 < s.len() && s[q + 1] == '(' {
            let r = find_target_end(s, q + 2);
            if r > q + 2 && s[r] == ')' {
                Some((s.subrange(q + 2, r), r + 1))
            } else {
                None
            }
        } else {
            None
        }
    } else {
        None
    }
}

proof fn lemma_find_char(s: Seq<char>, i: int, c: char)
    requires
        0 <= i,
    ensures
        find_char(s, i, c) == -1 || (i <= find_char(s, i, c) < s.len() && s[find_char(s, i, c)] == c),
        forall|j: int| i <= j < s.len() && (find_char(s, i, c) == -1 || j < find_char(s, i, c))
            ==> s[j] != c,
    decreases s.len() - i,
{
    if i < s.len() && s[i] != c {
        lemma_find_char(s, i + 1, c);
    }
}

proof fn lemma_find_target_end(s: Seq<char>, i: int)
    requires
        0 <= i,
    ensures
        find_target_end(s, i) == -1 || (i <= find_target_end(s, i) < s.len()
            && (s[find_target_end(s, i)] == ')' || crate::text::is_ws(s[find_target_end(s, i)]))),
        forall|j: int| i <= j < s.len() && (find_target_end(s, i) == -1 || j < find_target_end(s, i))
            ==> !(s[j] == ')' || crate::text::is_ws(s[j])),
    decreases s.len() - i,
{
    if i < s.len() && !(s[i] == ')' || crate::text::is_ws(s[i])) {
        lemma_find_target_end(s, i + 1);
    }
}

proof fn lemma_link_advances(s: Seq<char>, p: int)
    requires
        link_at(s, p) is Some,
    ensures
        p < (link_at(s, p)->0).1 <= s.len(),
{
    lemma_find_char(s, p + 1, ']');
    let q = find_char(s, p + 1, ']');
    lemma_find_target_end(s, q + 2);
}

/// The targets of the links of a line from position `p` on, matched left to
/// right without overlap.
pub open spec fn links_from(s: Seq<char>, p: int) -> Seq<Seq<char>>
    decreases s.len() - p,
{
    if p < 0 || p >= s.len() {
        Seq::empty()
    } else {
        match link_at(s, p) {
            Some((t, e)) => if p < e && e <= s.len() {
                seq![t] + links_from(s, e)
            } else {
                Seq::empty()
            },
            None => links_from(s, p + 1),
        }
    }
}

fn find_char_exec(s: &[char], i: usize, c: char) -> (r: Option<usize>)
    ensures
        match r {
            Some(k) => find_char(s@, i as int, c) == k,
            None => find_char(s@, i as int, c) == -1,
        },
{
    let mut k: usize = i;
    while k < s.len()
        invariant
            i <= k,
            find_char(s@, i as int, c) == find_char(s@, k as int, c),
        decreases s.len() - k,
    {
        if s[k] == c {
            return Some(k);
        }
        k = k + 1;
    }
    None
}

fn find_target_end_exec(s: &[char], i: usize) -> (r: Option<usize>)
    ensures
        match r {
            Some(k) => find_target_end(s@, i as int) == k,
            None => find_target_end(s@, i as int) == -1,
        },
{
    let mut k: usize = i;
    while k < s.len()
        invariant
            i <= k,
            find_target_end(s@, i as int) == find_target_end(s@, k as int),
        decreases s.len() - k,
    {
        if s[k] == ')' || crate::text::char_is_ws(s[k]) {
            return Some(k);
        }
        k = k + 1;
    }
    None
}

fn link_at_exec(s: &[char], p: usize) -> (r: Option<(Vec<char>, usize)>)
    requires
        p < s.len(),
    ensures
        match r {
            Some((t, e)) => link_at(s@, p as int) == Some((t@, e as int)),
            None => link_at(s@, p as int) is None,
        },
{
    if s[p] != '[' {
        return None;
    }
    proof {
        lemma_find_char(s@, p + 1, ']');
    }
    let q = match find_char_exec(s, p + 1, ']') {
        Some(q) => q,
        None => { return None; },
    };
    if q > p + 1 && q + 1 < s.len() && s[q + 1] == '(' {
        proof {
            lemma_find_target_end(s@, q + 2);
        }
        match find_target_end_exec(s, q + 2) {
            Some(r) => {
                if r > q + 2 && s[r] == ')' {
                    let t = crate::text::sub_chars(s, q + 2, r);
                    return Some((t, r + 1));
                }
            },
            None => {},
        }
    }
    None
}

/// The link targets of one line, in order.
pub fn line_link_targets(line: &[char]) -> (r: Vec<Vec<char>>)
    ensures
        views(r@) == links_from(line@, 0),
{
    let mut out: Vec<Vec<char>> = Vec::new();
    let mut p: usize = 0;
    while p < line.len()
        invariant
            p <= line.len(),
            views(out@) + links_from(line@, p as int) == links_from(line@, 0),
        decreases line.len() - p,
    {
        match link_at_exec(line, p) {
            Some((t, e)) => {
                proof {
                    lemma_link_advances(line@, p as int);
                }
                let ghost before = views(out@);
                out.push(t);
                assert(views(out@) =~= before.push(t@));
                assert(links_from(line@, p as int) == seq![t@] + links_from(line@, e as int));
                assert(views(out@) + links_from(line@, e as int)
                    =~= before + (seq![t@] + links_from(line@, e as int)));
                p = e;
            }
            None => {
                p = p + 1;
            }
        }
    }
    assert(views(out@) =~= views(out@) + links_from(line@, p as int));
    out
}

} // verus!

verus! {

/// A line without a trailing carriage return.
pub open spec fn strip_cr(l: Seq<char>) -> Seq<char> {
    if l.len() > 0 && l.last() == '\r' { l.drop_last() } else { l }
}

/// The finished lines of a text and the unfinished last one.
pub open spec fn lines_state(s: Seq<char>) -> (Seq<Seq<char>>, Seq<char>)
    decreases s.len(),
{
    if s.len() == 0 {
        (Seq::empty(), Seq::empty())
    } else {
        let (done, cur) = lines_state(s.drop_last());
        if s.last() == '\n' {
            (done.push(strip_cr(cur)), Seq::empty())
        } else {
            (done, cur.push(s.last()))
        }
    }
}

/// The lines of a text as `str::lines` yields them: split at `\n`, a `\r`
/// before the `\n` dropped, and no empty line after a final `\n`.
pub open spec fn text_lines(s: Seq<char>) -> Seq<Seq<char>> {
    let (done, cur) = lines_state(s);
    if cur.len() > 0 { done.push(cur) } else { done }
}

/// Whether a line opens or closes a fenced code block.
pub open spec fn is_fence(line: Seq<char>) -> bool {
    has_prefix(crate::text::trim_start_seq(line), "```"@)
}

/// The link targets that must resolve to files, each with its path part,
/// in the order they appear.
pub open spec fn checked_targets(ts: Seq<Seq<char>>) -> Seq<(Seq<char>, Seq<char>)>
    decreases ts.len(),
{
    if ts.len() == 0 {
        Seq::empty()
    } else {
        let t = ts.last();
        let rest = checked_targets(ts.drop_last());
        if skipped_link(t) || before_anchor(t).len() == 0 {
            rest
        } else {
            rest.push((t, before_anchor(t)))
        }
    }
}

/// The links of a page outside fenced code blocks, `fenced` telling whether
/// the first line is inside one.
pub open spec fn page_links(lines: Seq<Seq<char>>, fenced: bool) -> Seq<(Seq<char>, Seq<char>)>
    decreases lines.len(),
{
    if lines.len() == 0 {
        Seq::empty()
    } else if is_fence(lines[0]) {
        page_links(lines.drop_first(), !fenced)
    } else if fenced {
        page_links(lines.drop_first(), fenced)
    } else {
        checked_targets(links_from(lines[0], 0)) + page_links(lines.drop_first(), fenced)
    }
}

/// A relative link of a page: the target as written and its path part.
pub struct LinkCheck {
    /// The target as written in the page.
    pub target: String,
    /// The target without its anchor.
    pub path: String,
}

/// The views of a list of link checks.
pub open spec fn check_views(v: Seq<LinkCheck>) -> Seq<(Seq<char>, Seq<char>)> {
    v.map_values(|c: LinkCheck| (c.target@, c.path@))
}

proof fn lemma_lines_push(s: Seq<char>, c: char)
    ensures
        lines_state(s.push(c)) == (if c == '\n' {
            (lines_state(s).0.push(strip_cr(lines_state(s).1)), Seq::<char>::empty())
        } else {
            (lines_state(s).0, lines_state(s).1.push(c))
        }),
{
    assert(s.push(c).drop_last() =~= s);
}

fn strip_cr_exec(l: Vec<char>) -> (r: Vec<char>)
    ensures
        r@ == strip_cr(l@),
{
    let mut l = l;
    if l.len() > 0 && l[l.len() - 1] == '\r' {
        l.pop();
    }
    l
}

/// Splits a text into lines as `str::lines` does.
pub fn lines_of(text: &[char]) -> (lines: Vec<Vec<char>>)
    ensures
        views(lines@) == text_lines(text@),
{
    let mut done: Vec<Vec<char>> = Vec::new();
    let mut cur: Vec<char> = Vec::new();
    let mut i: usize = 0;
    while i < text.len()
        invariant
            i <= text.len(),
            (views(done@), cur@) == lines_state(text@.subrange(0, i as int)),
        decreases text.len() - i,
    {
        proof {
            assert(text@.subrange(0, i + 1) =~= text@.subrange(0, i as int).push(text@[i as int]));
            lemma_lines_push(text@.subrange(0, i as int), text@[i as int]);
        }
        if text[i] == '\n' {
            let line = strip_cr_exec(cur);
            let ghost before = views(done@);
            let ghost lv = line@;
            done.push(line);
            assert(views(done@) =~= before.push(lv));
            cur = Vec::new();
        } else {
            cur.push(text[i]);
        }
        i = i + 1;
    }
    assert(text@.subrange(0, i as int) =~= text@);
    if cur.len() > 0 {
        let ghost before = views(done@);
        let ghost cv = cur@;
        done.push(cur);
        assert(views(done@) =~= before.push(cv));
    }
    done
}

/// Appends the checks of one line's targets.
fn push_checks(out: &mut Vec<LinkCheck>, targets: &Vec<Vec<char>>)
    ensures
        check_views(final(out)@) == check_views(old(out)@) + checked_targets(views(targets@)),
{
    let ghost base = check_views(out@);
    let mut k: usize = 0;
    while k < targets.len()
        invariant
            k <= targets.len(),
            base == check_views(old(out)@),
            check_views(out@) == base + checked_targets(views(targets@).subrange(0, k as int)),
        decreases targets.len() - k,
    {
        let ghost sub = views(targets@).subrange(0, k + 1);
        assert(sub.drop_last() =~= views(targets@).subrange(0, k as int));
        assert(sub.last() == targets@[k as int]@);
        let t = string_of(targets[k].as_slice());
        if !should_skip_link(t.as_str()) {
            let path = strip_anchor(t.as_str());
            if path.unicode_len() > 0 {
                let ghost before = check_views(out@);
                out.push(LinkCheck { target: t, path });
                assert(check_views(out@) =~= before.push((targets@[k as int]@, before_anchor(targets@[k as int]@))));
            }
        }
        k = k + 1;
    }
    assert(views(targets@).subrange(0, k as int) =~= views(targets@));
}

/// The relative links of a Markdown page that must resolve to files, in
/// order: links inside fenced code blocks, in-page anchors, external schemes
/// and targets that are only an anchor are left out.
pub fn markdown_link_checks(content: &str) -> (checks: Vec<LinkCheck>)
    ensures
        check_views(checks@) == page_links(text_lines(content@), false),
{
    let text = chars_of(content);
    let lines = lines_of(&text);
    let fence = chars_of("```");
    let mut out: Vec<LinkCheck> = Vec::new();
    let mut fenced = false;
    let mut i: usize = 0;
    assert(views(lines@).skip(0) =~= views(lines@));
    assert(check_views(out@) =~= Seq::<(Seq<char>, Seq<char>)>::empty());
    while i < lines.len()
        invariant
            i <= lines.len(),
            text@ == content@,
            fence@ == "```"@,
            check_views(out@) + page_links(views(lines@).skip(i as int), fenced)
                == page_links(views(lines@), false),
        decreases lines.len() - i,
    {
        let ghost rest = views(lines@).skip(i as int);
        assert(rest.drop_first() =~= views(lines@).skip(i + 1));
        assert(rest[0] == lines@[i as int]@);
        let trimmed = crate::text::trim_start(lines[i].as_slice());
        if starts_with(&trimmed, &fence) {
            fenced = !fenced;
        } else if fenced {
        } else {
            let targets = line_link_targets(lines[i].as_slice());
            let ghost before = check_views(out@);
            push_checks(&mut out, &targets);
            assert(check_views(out@) + page_links(views(lines@).skip(i + 1), fenced)
                =~= before + (checked_targets(links_from(lines@[i as int]@, 0))
                + page_links(views(lines@).skip(i + 1), fenced)));
        }
        i = i + 1;
    }
    assert(views(lines@).skip(0) =~= views(lines@));
    assert(check_views(out@) =~= check_views(out@) + page_links(views(lines@).skip(i as int), fenced));
    out
}

/// Where a link of a page resolves: its path joined onto the page's
/// directory, normalised lexically.
pub fn resolve_link(page_dir: &str, path: &str) -> (r: String)
    ensures
        r@ == normalized(path_join(page_dir@, path@)),
{
    let joined = join_path(page_dir, path);
    normalize_path(joined.as_str())
}

} // verus!

verus! {

/// The first documented command that is blank or absent from the page.
pub open spec fn first_bad_command(content: Seq<char>, commands: Seq<Seq<char>>) -> Option<Seq<char>>
    decreases commands.len(),
{
    if commands.len() == 0 {
        None
    } else if crate::text::all_ws(commands[0]) || !crate::text::contains_seq(content, commands[0]) {
        Some(commands[0])
    } else {
        first_bad_command(content, commands.drop_first())
    }
}

/// The first referenced path that is missing from the workspace or not
/// mentioned by the page, with whether it exists.
pub open spec fn first_bad_path(content: Seq<char>, paths: Seq<Seq<char>>, present: Seq<bool>)
    -> Option<(Seq<char>, bool)>
    decreases paths.len(),
{
    if paths.len() == 0 || present.len() == 0 {
        None
    } else if !present[0] || !crate::text::contains_seq(content, paths[0]) {
        Some((paths[0], present[0]))
    } else {
        first_bad_path(content, paths.drop_first(), present.drop_first())
    }
}

/// The error a chapter entry of the verification manifest fails with, if
/// any: a missing page, then the first bad command, then the first bad path.
pub open spec fn chapter_error(
    page: Seq<char>,
    page_exists: bool,
    content: Seq<char>,
    commands: Seq<Seq<char>>,
    paths: Seq<Seq<char>>,
    exists: Seq<bool>,
) -> Option<Seq<char>> {
    if !page_exists {
        Some("verification entry points to a missing page: "@ + page)
    } else {
        match first_bad_command(content, commands) {
            Some(c) => Some("page "@ + page + " is missing the documented command `"@ + c + "`"@),
            None => match first_bad_path(content, paths, exists) {
                Some((p, true)) => Some("page "@ + page + " does not mention the required path `"@ + p + "`"@),
                Some((p, false)) => Some("page "@ + page + " references a missing artifact `"@ + p + "`"@),
                None => None,
            },
        }
    }
}

proof fn lemma_first_bad_command(content: Seq<char>, commands: Seq<Seq<char>>)
    ensures
        first_bad_command(content, commands) is None <==> forall|i: int| #![trigger commands[i]] 0 <= i < commands.len()
            ==> !crate::text::all_ws(commands[i]) && crate::text::contains_seq(content, commands[i]),
    decreases commands.len(),
{
    if commands.len() > 0 {
        let rest = commands.drop_first();
        lemma_first_bad_command(content, rest);
        assert forall|i: int| #![trigger rest[i]] 0 <= i < rest.len() implies #[trigger] rest[i] == commands[i + 1] by {}
        if forall|i: int| #![trigger commands[i]] 0 <= i < commands.len()
            ==> !crate::text::all_ws(commands[i]) && crate::text::contains_seq(content, commands[i]) {
            assert(!crate::text::all_ws(commands[0]) && crate::text::contains_seq(content, commands[0]));
            assert forall|i: int| #![trigger rest[i]] 0 <= i < rest.len() implies
                !crate::text::all_ws(rest[i]) && crate::text::contains_seq(content, rest[i]) by {
                assert(rest[i] == commands[i + 1]);
                assert(!crate::text::all_ws(commands[i + 1]));
            }
        }
        if first_bad_command(content, commands) is None {
            assert forall|i: int| #![trigger commands[i]] 0 <= i < commands.len() implies
                !crate::text::all_ws(commands[i]) && crate::text::contains_seq(content, commands[i]) by {
                if i > 0 {
                    assert(commands[i] == rest[i - 1]);
                }
            }
        }
    }
}

/// Whether a referenced path exists and is mentioned by the page.
pub open spec fn path_documented(content: Seq<char>, path: Seq<char>, present: bool) -> bool {
    present && crate::text::contains_seq(content, path)
}

proof fn lemma_first_bad_path(content: Seq<char>, paths: Seq<Seq<char>>, flags: Seq<bool>)
    requires
        paths.len() == flags.len(),
    ensures
        first_bad_path(content, paths, flags) is None <==> forall|i: int| 0 <= i < paths.len()
            ==> #[trigger] path_documented(content, paths[i], flags[i]),
    decreases paths.len(),
{
    if paths.len() > 0 {
        let rest = paths.drop_first();
        let prest = flags.drop_first();
        lemma_first_bad_path(content, rest, prest);
        assert forall|i: int| 0 <= i < rest.len() implies rest[i] == paths[i + 1] && prest[i] == flags[i + 1] by {}
        if path_documented(content, paths[0], flags[0]) {
            assert(first_bad_path(content, paths, flags) == first_bad_path(content, rest, prest));
            if first_bad_path(content, paths, flags) is None {
                assert forall|i: int| 0 <= i < paths.len() implies #[trigger] path_documented(content, paths[i], flags[i]) by {
                    if i > 0 {
                        assert(path_documented(content, rest[i - 1], prest[i - 1]));
                    }
                }
            }
            if forall|i: int| 0 <= i < paths.len() ==> #[trigger] path_documented(content, paths[i], flags[i]) {
                assert forall|i: int| 0 <= i < rest.len() implies #[trigger] path_documented(content, rest[i], prest[i]) by {
                    assert(path_documented(content, paths[i + 1], flags[i + 1]));
                }
            }
        } else {
            assert(first_bad_path(content, paths, flags) is Some);
        }
    }
}

/// A chapter entry passes exactly when its page exists, every documented
/// command is non-blank and occurs in the page, and every referenced path
/// exists and is mentioned by the page.
pub proof fn law_chapter_passes_iff_documented(
    page: Seq<char>,
    page_exists: bool,
    content: Seq<char>,
    commands: Seq<Seq<char>>,
    paths: Seq<Seq<char>>,
    present: Seq<bool>,
)
    requires
        paths.len() == present.len(),
    ensures
        chapter_error(page, page_exists, content, commands, paths, present) is None <==> {
            &&& page_exists
            &&& forall|i: int| #![trigger commands[i]] 0 <= i < commands.len()
                ==> !crate::text::all_ws(commands[i]) && crate::text::contains_seq(content, commands[i])
            &&& forall|i: int| 0 <= i < paths.len()
                ==> #[trigger] path_documented(content, paths[i], present[i])
        },
{
    lemma_first_bad_command(content, commands);
    lemma_first_bad_path(content, paths, present);
    if page_exists && first_bad_command(content, commands) is None {
        match first_bad_path(content, paths, present) {
            Some((p, true)) => {},
            Some((p, false)) => {},
            None => {},
        }
    }
}

fn page_message(prefix: &str, page: &str, middle: &str, item: &str) -> (r: String)
    ensures
        r@ == prefix@ + page@ + middle@ + item@ + "`"@,
{
    let mut r = concat3(prefix, page, middle);
    r.append(item);
    r.append("`");
    r
}

/// Checks one chapter entry: the page exists, documents every command, and
/// mentions every referenced path, each of which exists (`path_exists[i]`
/// tells whether `paths[i]` does).
pub fn check_chapter(
    page: &str,
    page_exists: bool,
    content: &str,
    commands: &[String],
    paths: &[String],
    path_exists: &[bool],
) -> (r: Result<(), String>)
    requires
        path_exists.len() == paths.len(),
    ensures
        chapter_error(page@, page_exists, content@, strs(commands@), strs(paths@), path_exists@)
            == match r {
            Ok(_) => None,
            Err(e) => Some(e@),
        },
        r is Ok <==> {
            &&& page_exists
            &&& forall|i: int| #![trigger commands@[i]] 0 <= i < commands.len()
                ==> !crate::text::all_ws(commands@[i]@) && crate::text::contains_seq(content@, commands@[i]@)
            &&& forall|i: int| 0 <= i < paths.len()
                ==> #[trigger] path_documented(content@, paths@[i]@, path_exists@[i])
        },
{
    assert(chapter_error(page@, page_exists, content@, strs(commands@), strs(paths@), path_exists@) is None <==> {
        &&& page_exists
        &&& forall|i: int| #![trigger commands@[i]] 0 <= i < commands.len()
            ==> !crate::text::all_ws(commands@[i]@) && crate::text::contains_seq(content@, commands@[i]@)
        &&& forall|i: int| 0 <= i < paths.len()
            ==> #[trigger] path_documented(content@, paths@[i]@, path_exists@[i])
    }) by {
        let cs = strs(commands@);
        let ps = strs(paths@);
        law_chapter_passes_iff_documented(page@, page_exists, content@, cs, ps, path_exists@);
        let spec_cmds = forall|i: int| #![trigger cs[i]] 0 <= i < cs.len()
            ==> !crate::text::all_ws(cs[i]) && crate::text::contains_seq(content@, cs[i]);
        let exec_cmds = forall|i: int| #![trigger commands@[i]] 0 <= i < commands.len()
            ==> !crate::text::all_ws(commands@[i]@) && crate::text::contains_seq(content@, commands@[i]@);
        if spec_cmds {
            assert forall|i: int| #![trigger commands@[i]] 0 <= i < commands.len() implies
                !crate::text::all_ws(commands@[i]@) && crate::text::contains_seq(content@, commands@[i]@) by {
                assert(cs[i] == commands@[i]@);
                assert(!crate::text::all_ws(cs[i]));
            }
        }
        if exec_cmds {
            assert forall|i: int| #![trigger cs[i]] 0 <= i < cs.len() implies
                !crate::text::all_ws(cs[i]) && crate::text::contains_seq(content@, cs[i]) by {
                assert(cs[i] == commands@[i]@);
                assert(!crate::text::all_ws(commands@[i]@));
            }
        }
        let spec_paths = forall|i: int| 0 <= i < ps.len()
            ==> #[trigger] path_documented(content@, ps[i], path_exists@[i]);
        let exec_paths = forall|i: int| 0 <= i < paths.len()
            ==> #[trigger] path_documented(content@, paths@[i]@, path_exists@[i]);
        if spec_paths {
            assert forall|i: int| 0 <= i < paths.len() implies
                #[trigger] path_documented(content@, paths@[i]@, path_exists@[i]) by {
                assert(ps[i] == paths@[i]@);
                assert(path_documented(content@, ps[i], path_exists@[i]));
            }
        }
        if exec_paths {
            assert forall|i: int| 0 <= i < ps.len() implies
                #[trigger] path_documented(content@, ps[i], path_exists@[i]) by {
                assert(ps[i] == paths@[i]@);
                assert(path_documented(content@, paths@[i]@, path_exists@[i]));
            }
        }
    }
    if !page_exists {
        return Err(crate::text::concat2("verification entry points to a missing page: ", page));
    }
    let text = chars_of(content);
    let mut i: usize = 0;
    assert(strs(commands@).skip(0) =~= strs(commands@));
    while i < commands.len()
        invariant
            i <= commands.len(),
            page_exists,
            text@ == content@,
            first_bad_command(content@, strs(commands@)) == first_bad_command(content@, strs(commands@).skip(i as int)),
        decreases commands.len() - i,
    {
        let ghost rest = strs(commands@).skip(i as int);
        assert(rest.drop_first() =~= strs(commands@).skip(i + 1));
        assert(rest[0] == commands@[i as int]@);
        let c = chars_of(commands[i].as_str());
        if crate::text::is_blank(&c) || !crate::text::contains(&text, &c) {
            assert(first_bad_command(content@, rest) == Some(commands@[i as int]@));
            assert(first_bad_command(content@, strs(commands@)) == Some(commands@[i as int]@));
            return Err(page_message("page ", page, " is missing the documented command `", commands[i].as_str()));
        }
        i = i + 1;
    }
    assert(strs(commands@).skip(i as int) =~= Seq::<Seq<char>>::empty());
    let mut j: usize = 0;
    assert(strs(paths@).skip(0) =~= strs(paths@));
    assert(path_exists@.skip(0) =~= path_exists@);
    while j < paths.len()
        invariant
            j <= paths.len(),
            page_exists,
            path_exists.len() == paths.len(),
            text@ == content@,
            first_bad_command(content@, strs(commands@)) is None,
            first_bad_path(content@, strs(paths@), path_exists@)
                == first_bad_path(content@, strs(paths@).skip(j as int), path_exists@.skip(j as int)),
        decreases paths.len() - j,
    {
        let ghost rest = strs(paths@).skip(j as int);
        let ghost rest_e = path_exists@.skip(j as int);
        assert(rest.drop_first() =~= strs(paths@).skip(j + 1));
        assert(rest_e.drop_first() =~= path_exists@.skip(j + 1));
        assert(rest[0] == paths@[j as int]@);
        assert(rest_e[0] == path_exists@[j as int]);
        if !path_exists[j] {
            assert(first_bad_path(content@, rest, rest_e) == Some((paths@[j as int]@, false)));
            assert(!path_documented(content@, paths@[j as int]@, path_exists@[j as int]));
            return Err(page_message("page ", page, " references a missing artifact `", paths[j].as_str()));
        }
        let p = chars_of(paths[j].as_str());
        if !crate::text::contains(&text, &p) {
            assert(first_bad_path(content@, rest, rest_e) == Some((paths@[j as int]@, true)));
            assert(!path_documented(content@, paths@[j as int]@, path_exists@[j as int]));
            return Err(page_message("page ", page, " does not mention the required path `", paths[j].as_str()));
        }
        j = j + 1;
    }
    assert(strs(paths@).skip(j as int) =~= Seq::<Seq<char>>::empty());
    Ok(())
}

} // verus!
