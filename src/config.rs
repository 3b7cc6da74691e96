use vstd::prelude::*;

verus! {

/// A template repository that a skeleton subcommand clones.
pub struct SkeletonSpec {
    pub name: String,
    pub source: String,
    pub branch: String,
}

/// An external program that a script subcommand runs.
pub struct ScriptSpec {
    pub name: String,
    pub executable: String,
}

/// The two namespaces of subcommands, as loaded from the configuration file.
pub struct Config {
    pub skeletons: Vec<SkeletonSpec>,
    pub scripts: Vec<ScriptSpec>,
}

/// The names of the skeleton subcommands, in order.
pub open spec fn skeleton_names(c: &Config) -> Seq<Seq<char>> {
    c.skeletons@.map_values(|s: SkeletonSpec| s.name@)
}

/// The names of the script subcommands, in order.
pub open spec fn script_names(c: &Config) -> Seq<Seq<char>> {
    c.scripts@.map_values(|s: ScriptSpec| s.name@)
}

/// Some name is registered both as a skeleton and as a script.
pub open spec fn names_overlap(c: &Config) -> bool {
    exists|i: int, j: int|
        0 <= i < c.skeletons@.len() && 0 <= j < c.scripts@.len()
            && #[trigger] c.skeletons@[i].name@ == #[trigger] c.scripts@[j].name@
}

/// Index of the first occurrence of `n` in `s`, if any.
pub open spec fn first_position(s: Seq<Seq<char>>, n: Seq<char>) -> Option<int> {
    if exists|i: int| 0 <= i < s.len() && s[i] == n {
        Some(choose|i: int|
            0 <= i < s.len() && s[i] == n && forall|k: int| 0 <= k < i ==> s[k] != n)
    } else {
        None
    }
}

/// Any occurrence of `n` bounds the first one, which is an occurrence.
pub proof fn lemma_first_position(s: Seq<Seq<char>>, n: Seq<char>, i: int)
    requires
        0 <= i < s.len(),
        s[i] == n,
    ensures
        first_position(s, n) matches Some(k) && 0 <= k <= i && s[k] == n
            && forall|m: int| 0 <= m < k ==> s[m] != n,
    decreases i,
{
    if exists|k: int| 0 <= k < i && s[k] == n {
        let k = choose|k: int| 0 <= k < i && s[k] == n;
        lemma_first_position(s, n, k);
    } else {
        assert(0 <= i < s.len() && s[i] == n && forall|k: int| 0 <= k < i ==> s[k] != n);
    }
}

/// Index of the first skeleton called `n`, if any.
pub open spec fn skeleton_position(c: &Config, n: Seq<char>) -> Option<int> {
    first_position(skeleton_names(c), n)
}

/// Index of the first script called `n`, if any.
pub open spec fn script_position(c: &Config, n: Seq<char>) -> Option<int> {
    first_position(script_names(c), n)
}

impl Config {
    /// Returns the first skeleton name that is also a script name, if any.
    pub fn find_overlap(&self) -> (r: Option<String>)
        ensures
            r.is_none() <==> !names_overlap(self),
            r matches Some(n) ==> (exists|i: int, j: int|
                0 <= i < self.skeletons@.len() && 0 <= j < self.scripts@.len()
                    && self.skeletons@[i].name@ == n@ && self.scripts@[j].name@ == n@),
    {
        let mut i: usize = 0;
        while i < self.skeletons.len()
            invariant
                0 <= i <= self.skeletons@.len(),
                forall|a: int, b: int|
                    0 <= a < i && 0 <= b < self.scripts@.len()
                        ==> self.skeletons@[a].name@ != self.scripts@[b].name@,
            decreases self.skeletons@.len() - i,
        {
            let mut j: usize = 0;
            while j < self.scripts.len()
                invariant
                    0 <= i < self.skeletons@.len(),
                    0 <= j <= self.scripts@.len(),
                    forall|a: int, b: int|
                        0 <= a < i && 0 <= b < self.scripts@.len()
                            ==> self.skeletons@[a].name@ != self.scripts@[b].name@,
                    forall|b: int|
                        0 <= b < j ==> self.skeletons@[i as int].name@ != self.scripts@[b].name@,
                decreases self.scripts@.len() - j,
            {
                if self.skeletons[i].name == self.scripts[j].name {
                    return Some(self.skeletons[i].name.clone());
                }
                j = j + 1;
            }
            i = i + 1;
        }
        None
    }

    /// Index of the first skeleton called `name`.
    pub fn skeleton_index(&self, name: &String) -> (r: Option<usize>)
        ensures
            r matches Some(i) ==> skeleton_position(self, name@) == Some(i as int),
            r.is_none() ==> skeleton_position(self, name@).is_none(),
    {
        let ghost names = skeleton_names(self);
        let mut i: usize = 0;
        while i < self.skeletons.len()
            invariant
                0 <= i <= self.skeletons@.len(),
                names == skeleton_names(self),
                names.len() == self.skeletons@.len(),
                forall|k: int| 0 <= k < i ==> names[k] != name@,
            decreases self.skeletons@.len() - i,
        {
            if self.skeletons[i].name == *name {
                proof {
                    lemma_first_position(names, name@, i as int);
                }
                return Some(i);
            }
            i = i + 1;
        }
        proof {
            if first_position(names, name@).is_some() {
                let w = choose|w: int| 0 <= w < names.len() && names[w] == name@;
                assert(names[w] != name@);
            }
        }
        None
    }

    /// Index of the first script called `name`.
    pub fn script_index(&self, name: &String) -> (r: Option<usize>)
        ensures
            r matches Some(i) ==> script_position(self, name@) == Some(i as int),
            r.is_none() ==> script_position(self, name@).is_none(),
    {
        let ghost names = script_names(self);
        let mut i: usize = 0;
        while i < self.scripts.len()
            invariant
                0 <= i <= self.scripts@.len(),
                names == script_names(self),
                names.len() == self.scripts@.len(),
                forall|k: int| 0 <= k < i ==> names[k] != name@,
            decreases self.scripts@.len() - i,
        {
            if self.scripts[i].name == *name {
                proof {
                    lemma_first_position(names, name@, i as int);
                }
                return Some(i);
            }
            i = i + 1;
        }
        proof {
            if first_position(names, name@).is_some() {
                let w = choose|w: int| 0 <= w < names.len() && names[w] == name@;
                assert(names[w] != name@);
            }
        }
        None
    }
}

} // verus!
