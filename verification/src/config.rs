//! Configuration data for one invocation: the textual template applied to
//! every change request, and the list of repositories to release.
//!
//! These values arrive already parsed and validated; the library treats them
//! as immutable inputs shared by every repository workflow.

use vstd::prelude::*;

verus! {

/// The change-request template applied to every repository in one invocation:
/// a title and a body.
pub struct JSONPattern {
    pub title: String,
    pub body: String,
}

/// A view of a [`JSONPattern`]: its two fields as character sequences.
pub struct JSONPatternView {
    pub title: Seq<char>,
    pub body: Seq<char>,
}

impl View for JSONPattern {
    type V = JSONPatternView;

    open spec fn view(&self) -> JSONPatternView {
        JSONPatternView { title: self.title@, body: self.body@ }
    }
}

impl DeepView for JSONPattern {
    type V = JSONPatternView;

    open spec fn deep_view(&self) -> JSONPatternView {
        self.view()
    }
}

/// One configured repository: who owns it, its name, and the branch pair used
/// for the change request (from `origin` into `target`).
pub struct JSONRepo {
    pub owner: String,
    pub repo: String,
    pub origin: String,
    pub target: String,
}

/// A view of a [`JSONRepo`]: its four fields as character sequences.
pub struct JSONRepoView {
    pub owner: Seq<char>,
    pub repo: Seq<char>,
    pub origin: Seq<char>,
    pub target: Seq<char>,
}

impl View for JSONRepo {
    type V = JSONRepoView;

    open spec fn view(&self) -> JSONRepoView {
        JSONRepoView {
            owner: self.owner@,
            repo: self.repo@,
            origin: self.origin@,
            target: self.target@,
        }
    }
}

impl DeepView for JSONRepo {
    type V = JSONRepoView;

    open spec fn deep_view(&self) -> JSONRepoView {
        self.view()
    }
}

impl JSONRepo {
    /// An owned copy whose fields are equal to the original's.
    pub fn duplicate(&self) -> (r: JSONRepo)
        ensures
            r@ == self@,
    {
        JSONRepo {
            owner: self.owner.clone(),
            repo: self.repo.clone(),
            origin: self.origin.clone(),
            target: self.target.clone(),
        }
    }
}

/// The full configuration of one invocation: an authentication credential,
/// the repositories to release, and the change-request template.
pub struct Config {
    pub pat: String,
    pub repositories: Vec<JSONRepo>,
    pub pattern: JSONPattern,
}

/// A view of a [`Config`].
pub struct ConfigView {
    pub pat: Seq<char>,
    pub repositories: Seq<JSONRepoView>,
    pub pattern: JSONPatternView,
}

impl View for Config {
    type V = ConfigView;

    open spec fn view(&self) -> ConfigView {
        ConfigView {
            pat: self.pat@,
            repositories: self.repositories.deep_view(),
            pattern: self.pattern@,
        }
    }
}

impl DeepView for Config {
    type V = ConfigView;

    open spec fn deep_view(&self) -> ConfigView {
        self.view()
    }
}

/// Everything one invocation needs: the configuration and the target version
/// (the tag) to apply across all configured repositories.
pub struct ParsedArgs {
    pub config: Config,
    pub tag: String,
}

/// A view of a [`ParsedArgs`].
pub struct ParsedArgsView {
    pub config: ConfigView,
    pub tag: Seq<char>,
}

impl View for ParsedArgs {
    type V = ParsedArgsView;

    open spec fn view(&self) -> ParsedArgsView {
        ParsedArgsView { config: self.config@, tag: self.tag@ }
    }
}

impl DeepView for ParsedArgs {
    type V = ParsedArgsView;

    open spec fn deep_view(&self) -> ParsedArgsView {
        self.view()
    }
}

} // verus!
