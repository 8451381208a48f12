//! Diagnostic reports: groups of a severity-tagged title and elements, each
//! element a source snippet with annotated spans or a free-text message.
use vstd::prelude::*;

use core::ops::Range;

use crate::level::Severity;

verus! {

/// Whether an annotation marks the offending span or a related one.
#[derive(Copy, Clone, Debug, PartialEq, Eq, Structural)]
pub enum AnnotationKind {
    Primary,
    Context,
}

/// Whether a group's title is the report's main title or a follow-up.
#[derive(Copy, Clone, Debug, PartialEq, Eq, Structural)]
pub enum TitleKind {
    Primary,
    Secondary,
}

/// A span of a snippet's source, with an optional label.
#[derive(Debug)]
pub struct Annotation {
    pub kind: AnnotationKind,
    pub span: Range<usize>,
    pub label: Option<String>,
}

/// A piece of source text, the path it is displayed under, and its
/// annotations.
#[derive(Debug)]
pub struct Snippet {
    pub source: String,
    pub path: String,
    pub annotations: Vec<Annotation>,
}

/// One element of a group.
#[derive(Debug)]
pub enum Element {
    Snippet(Snippet),
    Message(Severity, String),
}

/// A titled group of elements.
#[derive(Debug)]
pub struct Group {
    pub level: Severity,
    pub title_kind: TitleKind,
    pub title: String,
    pub elements: Vec<Element>,
}

/// One report: its groups in rendering order, and whether it must be shown
/// even where output is otherwise suppressed.
#[derive(Debug)]
pub struct Report {
    pub groups: Vec<Group>,
    pub force: bool,
}

pub struct AnnotationView {
    pub kind: AnnotationKind,
    pub span: Range<usize>,
    pub label: Option<Seq<char>>,
}

pub struct SnippetView {
    pub source: Seq<char>,
    pub path: Seq<char>,
    pub annotations: Seq<AnnotationView>,
}

pub enum ElementView {
    Snippet(SnippetView),
    Message(Severity, Seq<char>),
}

pub struct GroupView {
    pub level: Severity,
    pub title_kind: TitleKind,
    pub title: Seq<char>,
    pub elements: Seq<ElementView>,
}

pub struct ReportView {
    pub groups: Seq<GroupView>,
    pub force: bool,
}

impl View for Annotation {
    type V = AnnotationView;

    open spec fn view(&self) -> AnnotationView {
        AnnotationView {
            kind: self.kind,
            span: self.span,
            label: match self.label {
                Some(l) => Some(l@),
                None => None,
            },
        }
    }
}

impl View for Snippet {
    type V = SnippetView;

    open spec fn view(&self) -> SnippetView {
        SnippetView {
            source: self.source@,
            path: self.path@,
            annotations: self.annotations@.map_values(|a: Annotation| a@),
        }
    }
}

impl View for Element {
    type V = ElementView;

    open spec fn view(&self) -> ElementView {
        match self {
            Element::Snippet(s) => ElementView::Snippet(s@),
            Element::Message(l, m) => ElementView::Message(*l, m@),
        }
    }
}

impl View for Group {
    type V = GroupView;

    open spec fn view(&self) -> GroupView {
        GroupView {
            level: self.level,
            title_kind: self.title_kind,
            title: self.title@,
            elements: self.elements@.map_values(|e: Element| e@),
        }
    }
}

impl View for Report {
    type V = ReportView;

    open spec fn view(&self) -> ReportView {
        ReportView { groups: self.groups@.map_values(|g: Group| g@), force: self.force }
    }
}

pub open spec fn reports_view(reports: Seq<Report>) -> Seq<ReportView> {
    reports.map_values(|r: Report| r@)
}

/// A snippet of `source` under `path` with one annotation.
pub open spec fn one_span_snippet(
    source: Seq<char>,
    path: Seq<char>,
    kind: AnnotationKind,
    span: Range<usize>,
    label: Option<Seq<char>>,
) -> ElementView {
    ElementView::Snippet(
        SnippetView {
            source,
            path,
            annotations: seq![AnnotationView { kind, span, label }],
        },
    )
}

/// Builds a snippet of `source` under `path` with one annotation.
pub fn snippet_with(
    source: &str,
    path: &str,
    kind: AnnotationKind,
    span: Range<usize>,
    label: Option<String>,
) -> (r: Element)
    ensures
        r@ == one_span_snippet(
            source@,
            path@,
            kind,
            span,
            match label {
                Some(l) => Some(l@),
                None => None,
            },
        ),
{
    let mut annotations = Vec::new();
    annotations.push(Annotation { kind, span, label });
    let r = Element::Snippet(
        Snippet { source: String::from_str(source), path: String::from_str(path), annotations },
    );
    assert(r@->Snippet_0.annotations =~= seq![
        AnnotationView {
            kind,
            span,
            label: match label {
                Some(l) => Some(l@),
                None => None,
            },
        },
    ]);
    r
}

} // verus!
