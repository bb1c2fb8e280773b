//! The descriptor of one tracked repository.

use vstd::prelude::*;
use vstd::string::*;

verus! {

/// One deploy step: `from` is a path inside the working copy, `to` the
/// absolute destination.
#[derive(Debug, Clone, PartialEq, Eq)]
pub struct FromTo {
    pub from: String,
    pub to: String,
}

/// What a [`FromTo`] holds, as mathematical values.
pub struct FromToView {
    pub from: Seq<char>,
    pub to: Seq<char>,
}

impl View for FromTo {
    type V = FromToView;

    open spec fn view(&self) -> FromToView {
        FromToView { from: self.from@, to: self.to@ }
    }
}

impl DeepView for FromTo {
    type V = FromToView;

    open spec fn deep_view(&self) -> FromToView {
        self@
    }
}

/// The stored description of a tracked repository.
///
/// `version` caches the last remote version that was deployed; `None` and the
/// empty string both mean that nothing was deployed yet.
#[derive(Debug, Clone, PartialEq, Eq)]
pub struct ConfigFile {
    pub repo: String,
    pub build: Vec<String>,
    pub mouve: Vec<FromTo>,
    pub branch: Option<String>,
    pub version: Option<String>,
    pub entry_point: Option<String>,
}

/// What a [`ConfigFile`] holds, as mathematical values.
pub struct ConfigView {
    pub repo: Seq<char>,
    pub build: Seq<Seq<char>>,
    pub mouve: Seq<FromToView>,
    pub branch: Option<Seq<char>>,
    pub version: Option<Seq<char>>,
    pub entry_point: Option<Seq<char>>,
}

impl View for ConfigFile {
    type V = ConfigView;

    open spec fn view(&self) -> ConfigView {
        ConfigView {
            repo: self.repo@,
            build: self.build.deep_view(),
            mouve: self.mouve.deep_view(),
            branch: self.branch.deep_view(),
            version: self.version.deep_view(),
            entry_point: self.entry_point.deep_view(),
        }
    }
}

impl ConfigView {
    /// The tracked branch: `main` unless the descriptor names one.
    pub open spec fn resolved_branch(self) -> Seq<char> {
        match self.branch {
            Some(b) => b,
            None => "main"@,
        }
    }

    /// The version that was deployed last; empty before the first deploy.
    pub open spec fn current_version(self) -> Seq<char> {
        match self.version {
            Some(v) => v,
            None => Seq::empty(),
        }
    }

    /// The descriptor to store after `version` was deployed: it records that
    /// version and the branch that was tracked, and keeps everything else.
    pub open spec fn synced(self, version: Seq<char>) -> ConfigView {
        ConfigView { version: Some(version), branch: Some(self.resolved_branch()), ..self }
    }
}

/// A copy of an optional string.
pub fn copy_optional(o: &Option<String>) -> (r: Option<String>)
    ensures
        r.deep_view() == o.deep_view(),
{
    match o {
        Some(s) => Some(s.clone()),
        None => None,
    }
}

/// A copy of a list of strings.
pub fn copy_strings(v: &Vec<String>) -> (r: Vec<String>)
    ensures
        r.deep_view() == v.deep_view(),
{
    let mut r: Vec<String> = Vec::new();
    let n = v.len();
    let mut i: usize = 0;
    while i < n
        invariant
            i <= n,
            n == v.len(),
            r.len() == i,
            forall|j: int| 0 <= j < i ==> r@[j]@ == v@[j]@,
        decreases n - i,
    {
        r.push(v[i].clone());
        i += 1;
    }
    assert(r.deep_view() =~= v.deep_view());
    r
}

impl FromTo {
    /// A copy of this step.
    pub fn duplicate(&self) -> (r: FromTo)
        ensures
            r@ == self@,
    {
        FromTo { from: self.from.clone(), to: self.to.clone() }
    }
}

/// A copy of a list of deploy steps.
pub fn copy_steps(v: &Vec<FromTo>) -> (r: Vec<FromTo>)
    ensures
        r.deep_view() == v.deep_view(),
{
    let mut r: Vec<FromTo> = Vec::new();
    let n = v.len();
    let mut i: usize = 0;
    while i < n
        invariant
            i <= n,
            n == v.len(),
            r.len() == i,
            forall|j: int| 0 <= j < i ==> r@[j]@ == v@[j]@,
        decreases n - i,
    {
        r.push(v[i].duplicate());
        i += 1;
    }
    assert(r.deep_view() =~= v.deep_view());
    r
}

impl ConfigFile {
    /// A copy of this descriptor.
    pub fn duplicate(&self) -> (r: ConfigFile)
        ensures
            r@ == self@,
    {
        ConfigFile {
            repo: self.repo.clone(),
            build: copy_strings(&self.build),
            mouve: copy_steps(&self.mouve),
            branch: copy_optional(&self.branch),
            version: copy_optional(&self.version),
            entry_point: copy_optional(&self.entry_point),
        }
    }

    /// The tracked branch: `main` unless the descriptor names one.
    pub fn resolved_branch(&self) -> (r: String)
        ensures
            r@ == self@.resolved_branch(),
    {
        match &self.branch {
            Some(b) => b.clone(),
            None => String::from_str("main"),
        }
    }

    /// The version that was deployed last; empty before the first deploy.
    pub fn current_version(&self) -> (r: String)
        ensures
            r@ == self@.current_version(),
    {
        match &self.version {
            Some(v) => v.clone(),
            None => String::new(),
        }
    }

    /// The descriptor to store after `version` was deployed.
    pub fn synced(&self, version: &str) -> (r: ConfigFile)
        ensures
            r@ == self@.synced(version@),
    {
        ConfigFile {
            repo: self.repo.clone(),
            build: copy_strings(&self.build),
            mouve: copy_steps(&self.mouve),
            branch: Some(self.resolved_branch()),
            version: Some(String::from_str(version)),
            entry_point: copy_optional(&self.entry_point),
        }
    }
}

impl Default for ConfigFile {
    /// The empty descriptor.
    fn default() -> (r: ConfigFile)
        ensures
            r@ == (ConfigView {
                repo: Seq::empty(),
                build: Seq::empty(),
                mouve: Seq::empty(),
                branch: None,
                version: None,
                entry_point: None,
            }),
    {
        let r = ConfigFile {
            repo: String::new(),
            build: Vec::new(),
            mouve: Vec::new(),
            branch: None,
            version: None,
            entry_point: None,
        };
        assert(r.build.deep_view() =~= Seq::<Seq<char>>::empty());
        assert(r.mouve.deep_view() =~= Seq::<FromToView>::empty());
        r
    }
}

impl Default for FromTo {
    /// The step with two empty paths.
    fn default() -> (r: FromTo)
        ensures
            r@ == (FromToView { from: Seq::empty(), to: Seq::empty() }),
    {
        FromTo { from: String::new(), to: String::new() }
    }
}

} // verus!
