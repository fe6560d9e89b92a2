use vstd::prelude::*;

use crate::text::{owned, push_text};

verus! {

/// What the scoping phase decided of the project.
#[derive(Clone, Copy, Debug, PartialEq, Eq, Structural)]
pub struct ProjectScope {
    pub is_crud_required: bool,
    pub is_user_login_and_logout: bool,
    pub is_external_urls_required: bool,
}

/// The shared record of the project, filled in phase by phase.
#[derive(Clone, Debug)]
pub struct FactSheet {
    pub project_description: String,
    pub project_scope: Option<ProjectScope>,
    pub external_urls: Option<Vec<String>>,
    pub backend_code: Option<String>,
    pub api_endpoint_schema: Option<String>,
}

pub open spec fn bool_text(b: bool) -> Seq<char> {
    if b {
        "true"@
    } else {
        "false"@
    }
}

/// An optional text, or `None`.
pub open spec fn opt_text(o: Option<String>) -> Seq<char> {
    match o {
        Some(s) => s@,
        None => "None"@,
    }
}

pub open spec fn scope_text(o: Option<ProjectScope>) -> Seq<char> {
    match o {
        Some(p) => "is_crud_required: "@ + bool_text(p.is_crud_required)
            + ", is_user_login_and_logout: "@ + bool_text(p.is_user_login_and_logout)
            + ", is_external_urls_required: "@ + bool_text(p.is_external_urls_required),
        None => "None"@,
    }
}

/// The urls, each followed by a space.
pub open spec fn urls_text(urls: Seq<String>) -> Seq<char>
    decreases urls.len(),
{
    if urls.len() == 0 {
        Seq::empty()
    } else {
        urls_text(urls.drop_last()) + urls.last()@ + " "@
    }
}

pub open spec fn opt_urls_text(o: Option<Vec<String>>) -> Seq<char> {
    match o {
        Some(v) => urls_text(v@),
        None => "None"@,
    }
}

/// The text in which the fact sheet is handed to the language model.
pub open spec fn summary_of(f: FactSheet) -> Seq<char> {
    "project_description: "@ + f.project_description@ + "; project_scope: "@ + scope_text(
        f.project_scope,
    ) + "; external_urls: "@ + opt_urls_text(f.external_urls) + "; backend_code: "@
        + opt_text(f.backend_code) + "; api_endpoint_schema: "@ + opt_text(
        f.api_endpoint_schema,
    )
}

/// Appends an optional text, or `None`.
pub(crate) fn push_opt(s: &mut String, o: &Option<String>)
    ensures
        final(s)@ == old(s)@ + opt_text(*o),
{
    match o {
        Some(t) => push_text(s, t.as_str()),
        None => push_text(s, "None"),
    }
}

fn push_bool(s: &mut String, b: bool)
    ensures
        final(s)@ == old(s)@ + bool_text(b),
{
    if b {
        push_text(s, "true")
    } else {
        push_text(s, "false")
    }
}

impl FactSheet {
    /// A fact sheet that holds only the project description.
    pub fn new(project_description: String) -> (r: FactSheet)
        ensures
            r.project_description == project_description,
            r.project_scope.is_none(),
            r.external_urls.is_none(),
            r.backend_code.is_none(),
            r.api_endpoint_schema.is_none(),
    {
        FactSheet {
            project_description,
            project_scope: None,
            external_urls: None,
            backend_code: None,
            api_endpoint_schema: None,
        }
    }

    /// The fact sheet as text.
    pub fn summary(&self) -> (r: String)
        ensures
            r@ == summary_of(*self),
    {
        let mut s = owned("project_description: ");
        push_text(&mut s, self.project_description.as_str());
        push_text(&mut s, "; project_scope: ");
        match &self.project_scope {
            Some(p) => {
                push_text(&mut s, "is_crud_required: ");
                push_bool(&mut s, p.is_crud_required);
                push_text(&mut s, ", is_user_login_and_logout: ");
                push_bool(&mut s, p.is_user_login_and_logout);
                push_text(&mut s, ", is_external_urls_required: ");
                push_bool(&mut s, p.is_external_urls_required);
            },
            None => push_text(&mut s, "None"),
        }
        push_text(&mut s, "; external_urls: ");
        match &self.external_urls {
            Some(v) => {
                let mut i: usize = 0;
                let ghost start = s@;
                while i < v.len()
                    invariant
                        i <= v@.len(),
                        s@ == start + urls_text(v@.subrange(0, i as int)),
                    decreases v@.len() - i,
                {
                    proof {
                        let next = v@.subrange(0, i + 1);
                        assert(next.drop_last() =~= v@.subrange(0, i as int));
                    }
                    push_text(&mut s, v[i].as_str());
                    push_text(&mut s, " ");
                    i = i + 1;
                }
                assert(v@.subrange(0, v@.len() as int) =~= v@);
            },
            None => push_text(&mut s, "None"),
        }
        push_text(&mut s, "; backend_code: ");
        push_opt(&mut s, &self.backend_code);
        push_text(&mut s, "; api_endpoint_schema: ");
        push_opt(&mut s, &self.api_endpoint_schema);
        s
    }
}

} // verus!
