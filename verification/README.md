# rusty

A small web service — a todo list, a sign-in endpoint that stores users, and an
endpoint that fetches one e-mail from Gmail over IMAP and scores its text for
sentiment — split into a verified library and the program around it.

- `src/` (verified with Verus)
  - `model.rs`: tasks, todos, users, forms, and the page context.
  - `pages.rs`: what the todo, page and sign-in endpoints answer.
  - `oauth.rs`: the XOAUTH2 response Gmail is signed in with.
  - `inbox.rs`: the steps of scoring an e-mail as a state machine
    (`InboxFlow::start` / `InboxFlow::step`) and its laws.
  - `text.rs`: UTF-8 decoding, the 5000-byte analysis budget, and decimal
    parsing of message ids.
  - `nlp.rs`: the requests sent to the text-analysis service.
- `app/`: the Rocket routes, the SQLite storage (Diesel), the IMAP session, the
  calls to Amazon Comprehend, and the floating-point score summation.
- `tests/`: tests of the library.
