//! Command plans: a program, its working directory, its arguments and its
//! environment overrides, built before anything is run.

use vstd::prelude::*;
use crate::text::{concat2, concat3, owned};

verus! {

/// The views of a list of strings.
pub open spec fn strs(v: Seq<String>) -> Seq<Seq<char>> {
    v.map_values(|s: String| s@)
}

/// `rel` resolved against `base` as `Path::join` does on Unix: an absolute
/// `rel` replaces `base`; otherwise one separator is placed between them.
pub open spec fn path_join(base: Seq<char>, rel: Seq<char>) -> Seq<char> {
    if rel.len() > 0 && rel[0] == '/' {
        rel
    } else if base.len() == 0 || base.last() == '/' {
        base + rel
    } else {
        base + seq!['/'] + rel
    }
}

/// Joins `rel` onto `base` (`Path::join`).
pub fn join_path(base: &str, rel: &str) -> (r: String)
    ensures
        r@ == path_join(base@, rel@),
{
    let rn = rel.unicode_len();
    if rn > 0 && rel.get_char(0) == '/' {
        return owned(rel);
    }
    let bn = base.unicode_len();
    if bn == 0 || base.get_char(bn - 1) == '/' {
        concat2(base, rel)
    } else {
        let r = concat3(base, "/", rel);
        proof {
            reveal_strlit("/");
            assert("/"@ =~= seq!['/']);
        }
        r
    }
}

/// A planned command invocation.
pub struct CommandPlan {
    /// The program to run.
    pub program: String,
    /// The working directory of the process.
    pub current_dir: String,
    /// The arguments, in order.
    pub args: Vec<String>,
    /// Environment overrides; where a key occurs more than once, its last
    /// entry counts.
    pub env: Vec<(String, String)>,
}

/// The value an environment list gives `key`, if any.
pub open spec fn env_lookup(env: Seq<(String, String)>, key: Seq<char>) -> Option<Seq<char>>
    decreases env.len(),
{
    if env.len() == 0 {
        None
    } else if env.last().0@ == key {
        Some(env.last().1@)
    } else {
        env_lookup(env.drop_last(), key)
    }
}

/// `program` followed by each argument, separated by single spaces.
pub open spec fn display_seq(program: Seq<char>, args: Seq<Seq<char>>) -> Seq<char>
    decreases args.len(),
{
    if args.len() == 0 {
        program
    } else {
        display_seq(program, args.drop_last()) + seq![' '] + args.last()
    }
}

impl CommandPlan {
    /// The argument list as character sequences.
    pub open spec fn arg_views(&self) -> Seq<Seq<char>> {
        strs(self.args@)
    }

    /// A plan for `program` in `current_dir` with no arguments.
    pub fn new(program: &str, current_dir: &str) -> (p: CommandPlan)
        ensures
            p.program@ == program@,
            p.current_dir@ == current_dir@,
            p.arg_views() == Seq::<Seq<char>>::empty(),
            p.env@.len() == 0,
    {
        let p = CommandPlan {
            program: owned(program),
            current_dir: owned(current_dir),
            args: Vec::new(),
            env: Vec::new(),
        };
        assert(p.arg_views() =~= Seq::<Seq<char>>::empty());
        p
    }

    /// Appends one argument.
    pub fn push_arg(&mut self, arg: &str)
        ensures
            final(self).program == old(self).program,
            final(self).current_dir == old(self).current_dir,
            final(self).env == old(self).env,
            final(self).arg_views() == old(self).arg_views().push(arg@),
    {
        self.args.push(owned(arg));
        assert(self.arg_views() =~= old(self).arg_views().push(arg@));
    }

    /// This plan with one more argument.
    pub fn arg(self, arg: &str) -> (p: CommandPlan)
        ensures
            p.program == self.program,
            p.current_dir == self.current_dir,
            p.env == self.env,
            p.arg_views() == self.arg_views().push(arg@),
    {
        let mut p = self;
        p.push_arg(arg);
        p
    }

    /// This plan with the given arguments appended, in order.
    pub fn args(self, list: &[&str]) -> (p: CommandPlan)
        ensures
            p.program == self.program,
            p.current_dir == self.current_dir,
            p.env == self.env,
            p.arg_views() == self.arg_views() + list@.map_values(|s: &str| s@),
    {
        let mut p = self;
        let mut i: usize = 0;
        while i < list.len()
            invariant
                i <= list.len(),
                p.program == self.program,
                p.current_dir == self.current_dir,
                p.env == self.env,
                p.arg_views() == self.arg_views() + list@.subrange(0, i as int).map_values(|s: &str| s@),
            decreases list.len() - i,
        {
            p.push_arg(list[i]);
            assert(list@.subrange(0, i + 1).map_values(|s: &str| s@)
                =~= list@.subrange(0, i as int).map_values(|s: &str| s@).push(list@[i as int]@));
            i = i + 1;
        }
        assert(list@.subrange(0, i as int) =~= list@);
        p
    }

    /// This plan with the given owned arguments appended, in order.
    pub fn args_owned(self, list: &[String]) -> (p: CommandPlan)
        ensures
            p.program == self.program,
            p.current_dir == self.current_dir,
            p.env == self.env,
            p.arg_views() == self.arg_views() + strs(list@),
    {
        let mut p = self;
        let mut i: usize = 0;
        while i < list.len()
            invariant
                i <= list.len(),
                p.program == self.program,
                p.current_dir == self.current_dir,
                p.env == self.env,
                p.arg_views() == self.arg_views() + strs(list@.subrange(0, i as int)),
            decreases list.len() - i,
        {
            p.push_arg(list[i].as_str());
            assert(strs(list@.subrange(0, i + 1)) =~= strs(list@.subrange(0, i as int)).push(list@[i as int]@));
            i = i + 1;
        }
        assert(list@.subrange(0, i as int) =~= list@);
        p
    }

    /// Sets an environment override, replacing an earlier value of `key`.
    pub fn set_env(&mut self, key: &str, value: &str)
        ensures
            final(self).program == old(self).program,
            final(self).current_dir == old(self).current_dir,
            final(self).args == old(self).args,
            forall|k: Seq<char>| #[trigger] env_lookup(final(self).env@, k)
                == if k == key@ { Some(value@) } else { env_lookup(old(self).env@, k) },
    {
        let ghost old_env = self.env@;
        let mut kept: Vec<(String, String)> = Vec::new();
        let mut i: usize = 0;
        while i < self.env.len()
            invariant
                i <= self.env.len(),
                self.env@ == old_env,
                forall|k: Seq<char>| k != key@ ==> #[trigger] env_lookup(kept@, k)
                    == env_lookup(old_env.subrange(0, i as int), k),
                env_lookup(kept@, key@) == None::<Seq<char>>,
            decreases self.env.len() - i,
        {
            let same = self.env[i].0 == owned(key);
            let ghost before_push = kept@;
            if !same {
                let entry = (self.env[i].0.clone(), self.env[i].1.clone());
                kept.push(entry);
            }
            proof {
                let sub = old_env.subrange(0, i + 1);
                let prev = old_env.subrange(0, i as int);
                assert(sub.drop_last() =~= prev);
                assert(sub.last() == old_env[i as int]);
                if !same {
                    assert(kept@.drop_last() =~= before_push);
                    assert(kept@.last().0@ == old_env[i as int].0@);
                    assert(kept@.last().1@ == old_env[i as int].1@);
                } else {
                    assert(kept@ == before_push);
                }
                assert forall|k: Seq<char>| k != key@ implies #[trigger] env_lookup(kept@, k)
                    == env_lookup(sub, k) by {
                    assert(env_lookup(before_push, k) == env_lookup(prev, k));
                }
            }
            i = i + 1;
        }
        assert(old_env.subrange(0, i as int) =~= old_env);
        let ghost before = kept@;
        kept.push((owned(key), owned(value)));
        assert(kept@.drop_last() =~= before);
        assert forall|k: Seq<char>| #[trigger] env_lookup(kept@, k)
            == if k == key@ { Some(value@) } else { env_lookup(old_env, k) } by {
            if k != key@ {
                assert(env_lookup(before, k) == env_lookup(old_env, k));
            }
        }
        self.env = kept;
    }

    /// The value of an environment override, if set.
    pub fn env_value(&self, key: &str) -> (r: Option<String>)
        ensures
            match r {
                Some(v) => env_lookup(self.env@, key@) == Some(v@),
                None => env_lookup(self.env@, key@) == None::<Seq<char>>,
            },
    {
        let k = owned(key);
        let mut i: usize = self.env.len();
        assert(self.env@.subrange(0, i as int) =~= self.env@);
        while i > 0
            invariant
                i <= self.env.len(),
                k@ == key@,
                env_lookup(self.env@, key@) == env_lookup(self.env@.subrange(0, i as int), key@),
            decreases i,
        {
            let ghost sub = self.env@.subrange(0, i as int);
            assert(sub.drop_last() =~= self.env@.subrange(0, i - 1));
            assert(sub.last() == self.env@[i - 1]);
            if self.env[i - 1].0 == k {
                let v = self.env[i - 1].1.clone();
                return Some(v);
            }
            i = i - 1;
        }
        None
    }

    /// The program and its arguments separated by single spaces.
    pub fn display(&self) -> (s: String)
        ensures
            s@ == display_seq(self.program@, self.arg_views()),
    {
        let mut s = self.program.clone();
        let mut i: usize = 0;
        while i < self.args.len()
            invariant
                i <= self.args.len(),
                s@ == display_seq(self.program@, self.arg_views().subrange(0, i as int)),
            decreases self.args.len() - i,
        {
            crate::text::push_char(&mut s, ' ');
            s.append(self.args[i].as_str());
            assert(self.arg_views().subrange(0, i + 1).drop_last() =~= self.arg_views().subrange(0, i as int));
            i = i + 1;
        }
        assert(self.arg_views().subrange(0, i as int) =~= self.arg_views());
        s
    }
}

} // verus!
