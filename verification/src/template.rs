//! Template selection and location.
//!
//! A template directory name is derived from the chosen language and
//! framework: `template-<framework>` for JavaScript, with a `-ts` suffix
//! for TypeScript. The installation root that holds those directories is
//! found by walking parent directories upward until one carries the
//! package-manifest marker; the walk itself is unverified I/O, and the
//! decision which ancestor wins is [`first_marked`].

use vstd::prelude::*;

verus! {

/// The two supported languages.
#[derive(Clone, Copy, PartialEq, Eq, Structural, Debug)]
pub enum Language {
    JavaScript,
    TypeScript,
}

/// The supported frameworks.
#[derive(Clone, Copy, PartialEq, Eq, Structural, Debug)]
pub enum Framework {
    Vue,
    Vue2,
    React,
    Angular,
    Svelte,
}

/// The package managers offered in the closing instructions.
#[derive(Clone, Copy, PartialEq, Eq, Structural, Debug)]
pub enum PackageManager {
    Npm,
    Yarn,
    Pnpm,
}

/// The lowercase directory-name fragment of a framework.
pub open spec fn framework_dir_spec(f: Framework) -> Seq<char> {
    match f {
        Framework::Vue => "vue"@,
        Framework::Vue2 => "vue2"@,
        Framework::React => "react"@,
        Framework::Angular => "angular"@,
        Framework::Svelte => "svelte"@,
    }
}

/// The template directory name for a selection: `template-<framework>`,
/// plus `-ts` for TypeScript.
pub open spec fn template_name_spec(l: Language, f: Framework) -> Seq<char> {
    "template-"@ + framework_dir_spec(f) + (if l is TypeScript {
        "-ts"@
    } else {
        Seq::<char>::empty()
    })
}

/// Exec counterpart of [`framework_dir_spec`].
pub fn framework_dir(f: Framework) -> (r: &'static str)
    ensures
        r@ == framework_dir_spec(f),
{
    match f {
        Framework::Vue => "vue",
        Framework::Vue2 => "vue2",
        Framework::React => "react",
        Framework::Angular => "angular",
        Framework::Svelte => "svelte",
    }
}

/// Builds the template directory name for a selection.
pub fn resolve_template(language: Language, framework: Framework) -> (r: String)
    ensures
        r@ == template_name_spec(language, framework),
{
    let mut r = String::from_str("template-");
    r.append(framework_dir(framework));
    match language {
        Language::TypeScript => r.append("-ts"),
        Language::JavaScript => (),
    }
    proof {
        assert(r@ =~= template_name_spec(language, framework));
    }
    r
}

/// The index of the first marked ancestor, if any: given, for each
/// successive parent directory, whether it carries the package-manifest
/// marker, returns the position of the nearest one that does.
pub fn first_marked(marks: &Vec<bool>) -> (r: Option<usize>)
    ensures
        match r {
            Some(i) => i < marks@.len() && marks@[i as int] && forall|j: int|
                0 <= j < i ==> !marks@[j],
            None => forall|j: int| 0 <= j < marks@.len() ==> !marks@[j],
        },
{
    let mut i: usize = 0;
    while i < marks.len()
        invariant
            0 <= i <= marks@.len(),
            forall|j: int| 0 <= j < i ==> !marks@[j],
        decreases marks@.len() - i,
    {
        if marks[i] {
            return Some(i);
        }
        i = i + 1;
    }
    None
}

} // verus!
