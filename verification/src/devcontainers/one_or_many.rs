//! Lifecycle hook values (`initializeCommand`, `postCreateCommand`, ...).

use vstd::prelude::*;

verus! {

/// A lifecycle hook value that accepts either a plain string or an array of strings.
///
/// String form: `"npm install"` is executed as `sh -c "npm install"`.
/// Array form: `["npm", "install"]` is executed as `npm install` (no shell).
#[derive(Debug, Clone, PartialEq)]
pub enum OneOrMany {
    One(String),
    Many(Vec<String>),
}

/// The program and arguments that a hook runs, as plain character sequences.
pub open spec fn exec_parts_of(hook: OneOrMany) -> Option<(Seq<char>, Seq<Seq<char>>)> {
    match hook {
        OneOrMany::One(cmd) => Some(("sh"@, seq!["-c"@, cmd@])),
        OneOrMany::Many(parts) => if parts@.len() == 0 {
            None
        } else {
            Some((parts@[0]@, parts.deep_view().skip(1)))
        },
    }
}

impl OneOrMany {
    /// Return the program and arguments for executing this hook.
    ///
    /// - `One(cmd)` gives `("sh", ["-c", cmd])`
    /// - `Many(parts)` gives `(parts[0], parts[1..])`
    ///
    /// Returns `None` if `Many` is empty.
    pub fn to_exec_parts(&self) -> (r: Option<(String, Vec<String>)>)
        ensures
            match (r, exec_parts_of(*self)) {
                (Some((p, a)), Some((sp, sa))) => p@ == sp && a.deep_view() == sa,
                (None, None) => true,
                _ => false,
            },
    {
        match self {
            OneOrMany::One(cmd) => {
                let mut args: Vec<String> = Vec::new();
                args.push("-c".to_string());
                args.push(cmd.clone());
                proof { reveal_strlit("-c"); reveal_strlit("sh"); }
                assert(args.deep_view() =~= seq!["-c"@, cmd@]);
                Some(("sh".to_string(), args))
            },
            OneOrMany::Many(parts) => {
                if parts.len() == 0 {
                    None
                } else {
                    let mut rest: Vec<String> = Vec::new();
                    let mut i: usize = 1;
                    while i < parts.len()
                        invariant
                            1 <= i <= parts@.len(),
                            rest.deep_view() =~= parts.deep_view().subrange(1, i as int),
                        decreases parts@.len() - i,
                    {
                        let ghost before = rest.deep_view();
                        rest.push(parts[i].clone());
                        assert(rest.deep_view() =~= before.push(parts@[i as int]@));
                        i = i + 1;
                    }
                    Some((parts[0].clone(), rest))
                }
            },
        }
    }
}

/// The array form runs its first element with the rest as arguments: the program
/// followed by the arguments gives back the array.
pub proof fn law_exec_parts_give_back_array(hook: OneOrMany)
    requires
        hook is Many,
        hook->Many_0@.len() > 0,
    ensures
        exec_parts_of(hook) is Some,
        seq![exec_parts_of(hook)->Some_0.0] + exec_parts_of(hook)->Some_0.1 == hook->Many_0.deep_view(),
{
    let parts = hook->Many_0.deep_view();
    assert(seq![parts[0]] + parts.skip(1) =~= parts);
}

} // verus!
