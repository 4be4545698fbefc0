//! The records the service stores and exchanges: tasks of the todo list,
//! users, the forms that carry them in, and the context a page is rendered with.

use vstd::prelude::*;

verus! {

/// A row of the `tasks` table.
pub struct Task {
    pub id: Option<i32>,
    pub description: String,
    pub completed: bool,
}

/// The form a new todo arrives in.
pub struct Todo {
    pub description: String,
}

/// A row of the `users` table.
pub struct User {
    pub id: Option<i32>,
    pub email: String,
    pub first_name: String,
    pub last_name: String,
    pub access_token: String,
}

/// The JSON body of a sign-in request.
pub struct UserForm {
    pub email: String,
    pub first_name: String,
    pub last_name: String,
    pub access_token: String,
}

/// The JSON body of a request to score one e-mail of a mailbox.
pub struct EmailSentimentForm {
    pub message_id: String,
    pub mailbox: String,
}

impl Task {
    /// The row a new todo is stored as: its description, not completed, and
    /// no id, so that the database assigns one.
    pub fn from_todo(todo: Todo) -> (task: Task)
        ensures
            task.id is None,
            task.description@ == todo.description@,
            !task.completed,
    {
        Task { id: None, description: todo.description, completed: false }
    }
}

impl User {
    /// The row a sign-in form is stored as: the form's fields, and no id, so
    /// that the database assigns one.
    pub fn from_form(form: UserForm) -> (user: User)
        ensures
            user.id is None,
            user.email@ == form.email@,
            user.first_name@ == form.first_name@,
            user.last_name@ == form.last_name@,
            user.access_token@ == form.access_token@,
    {
        User {
            id: None,
            email: form.email,
            first_name: form.first_name,
            last_name: form.last_name,
            access_token: form.access_token,
        }
    }
}

/// What a page is rendered with: an optional flash message, as a pair of
/// its kind and its text, and the current tasks.
pub struct Context<'a, 'b> {
    pub msg: Option<(&'a str, &'b str)>,
    pub tasks: Vec<Task>,
}

impl<'a, 'b> Context<'a, 'b> {
    /// A context that reports the error `msg` beside the current `tasks`.
    pub fn err(tasks: Vec<Task>, msg: &'a str) -> (ctx: Context<'static, 'a>)
        ensures
            ctx.msg matches Some((kind, text)) && kind@ == "error"@ && text@ == msg@,
            ctx.tasks@ == tasks@,
    {
        Context { msg: Some(("error", msg)), tasks }
    }

    /// A context with the flash message `msg`, if any, and the current `tasks`.
    pub fn raw(tasks: Vec<Task>, msg: Option<(&'a str, &'b str)>) -> (ctx: Context<'a, 'b>)
        ensures
            ctx.msg == msg,
            ctx.tasks@ == tasks@,
    {
        Context { msg, tasks }
    }
}

} // verus!
