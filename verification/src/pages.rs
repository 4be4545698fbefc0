//! What the todo and sign-in endpoints answer, decided from what the
//! database reported.

use vstd::prelude::*;
use crate::model::{Context, Task, Todo};

verus! {

/// The two kinds of flash message a redirect can carry.
#[derive(PartialEq, Eq, Structural, Clone, Copy)]
pub enum FlashKind {
    Success,
    Error,
}

impl FlashKind {
    /// The name the flash message is stored under.
    pub fn name(&self) -> (name: &'static str)
        ensures
            *self is Success ==> name@ == "success"@,
            *self is Error ==> name@ == "error"@,
    {
        match self {
            FlashKind::Success => "success",
            FlashKind::Error => "error",
        }
    }
}

/// A redirect to `to` that leaves a flash message of kind `kind` behind.
pub struct FlashRedirect {
    pub kind: FlashKind,
    pub message: &'static str,
    pub to: &'static str,
}

/// A page to render: the template's name and its context.
pub struct Page<'a, 'b> {
    pub template: &'static str,
    pub context: Context<'a, 'b>,
}

/// True when `f` redirects to the list with a flash of kind `kind` and text `message`.
pub open spec fn flashes(f: FlashRedirect, kind: FlashKind, message: Seq<char>) -> bool {
    &&& f.kind == kind
    &&& f.message@ == message
    &&& f.to@ == "/"@
}

/// The first step of adding a todo.
pub enum TodoStep {
    /// Nothing is stored; the user is sent back with this message.
    Reject(FlashRedirect),
    /// The todo is to be stored.
    Insert(Todo),
}

/// Decides whether a submitted todo is stored: one with an empty
/// description is refused.
pub fn plan_new_todo(todo: Todo) -> (step: TodoStep)
    ensures
        todo.description@.len() == 0 <==> step is Reject,
        step matches TodoStep::Reject(f) ==> flashes(f, FlashKind::Error, "Description cannot be empty."@),
        step matches TodoStep::Insert(t) ==> t.description@ == todo.description@,
{
    if todo.description.as_str().is_empty() {
        TodoStep::Reject(FlashRedirect {
            kind: FlashKind::Error,
            message: "Description cannot be empty.",
            to: "/",
        })
    } else {
        TodoStep::Insert(todo)
    }
}

/// The answer once the database has tried to store a todo.
pub fn finish_new_todo(inserted: bool) -> (f: FlashRedirect)
    ensures
        inserted ==> flashes(f, FlashKind::Success, "Todo successfully added."@),
        !inserted ==> flashes(f, FlashKind::Error, "Whoops! The server failed."@),
{
    if inserted {
        FlashRedirect { kind: FlashKind::Success, message: "Todo successfully added.", to: "/" }
    } else {
        FlashRedirect { kind: FlashKind::Error, message: "Whoops! The server failed.", to: "/" }
    }
}

/// The answer to toggling a task: back to the list when the database did
/// it, else the error to show on the list page.
pub fn toggle_reply(toggled: bool) -> (res: Result<&'static str, &'static str>)
    ensures
        toggled ==> (res matches Ok(to) && to@ == "/"@),
        !toggled ==> (res matches Err(msg) && msg@ == "Couldn't toggle task."@),
{
    if toggled {
        Ok("/")
    } else {
        Err("Couldn't toggle task.")
    }
}

/// The answer to deleting a task: back to the list with a confirmation
/// when the database did it, else the error to show on the list page.
pub fn delete_reply(deleted: bool) -> (res: Result<FlashRedirect, &'static str>)
    ensures
        deleted ==> (res matches Ok(f) && flashes(f, FlashKind::Success, "Todo was deleted."@)),
        !deleted ==> (res matches Err(msg) && msg@ == "Couldn't delete task."@),
{
    if deleted {
        Ok(FlashRedirect { kind: FlashKind::Success, message: "Todo was deleted.", to: "/" })
    } else {
        Err("Couldn't delete task.")
    }
}

/// The list page showing the error `msg` beside the current `tasks`.
pub fn error_page<'a>(tasks: Vec<Task>, msg: &'a str) -> (page: Page<'static, 'a>)
    ensures
        page.template@ == "index"@,
        page.context.msg matches Some((kind, text)) && kind@ == "error"@ && text@ == msg@,
        page.context.tasks@ == tasks@,
{
    Page { template: "index", context: Context::err(tasks, msg) }
}

/// The pages that are rendered from a template with the task list.
#[derive(PartialEq, Eq, Structural, Clone, Copy)]
pub enum PageKind {
    Index,
    Gpl,
    EmailSentimentForm,
}

impl PageKind {
    /// The name of the template the page is rendered from.
    pub fn template(&self) -> (name: &'static str)
        ensures
            *self is Index ==> name@ == "index"@,
            *self is Gpl ==> name@ == "gpl"@,
            *self is EmailSentimentForm ==> name@ == "email_sentiment_form"@,
    {
        match self {
            PageKind::Index => "index",
            PageKind::Gpl => "gpl",
            PageKind::EmailSentimentForm => "email_sentiment_form",
        }
    }
}

/// The page `kind`, showing the flash message left by the last redirect, if
/// any, beside the current `tasks`.
pub fn show_page<'a, 'b>(kind: PageKind, flash: Option<(&'a str, &'b str)>, tasks: Vec<Task>) -> (page: Page<'a, 'b>)
    ensures
        kind is Index ==> page.template@ == "index"@,
        kind is Gpl ==> page.template@ == "gpl"@,
        kind is EmailSentimentForm ==> page.template@ == "email_sentiment_form"@,
        page.context.msg == flash,
        page.context.tasks@ == tasks@,
{
    Page { template: kind.template(), context: Context::raw(tasks, flash) }
}

/// What the sign-in endpoint answers: HTTP status 200 and a JSON body whose
/// `status` field is `outcome`.
pub struct SigninReply {
    pub outcome: &'static str,
    pub http_status: u16,
}

/// The answer to a sign-in, once the database has tried to store the user:
/// `success` when it did, `failed` when it did not, with status 200 either way.
pub fn signin_reply(stored: bool) -> (reply: SigninReply)
    ensures
        reply.http_status == 200,
        stored ==> reply.outcome@ == "success"@,
        !stored ==> reply.outcome@ == "failed"@,
{
    if stored {
        SigninReply { outcome: "success", http_status: 200 }
    } else {
        SigninReply { outcome: "failed", http_status: 200 }
    }
}

} // verus!
