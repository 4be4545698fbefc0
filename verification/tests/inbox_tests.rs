use rusty::inbox::{InboxAction, InboxEvent, InboxFailure, InboxFlow, Stage};
use rusty::model::User;

fn user(token: &str) -> User {
    User {
        id: Some(1),
        email: "stored@example.com".to_string(),
        first_name: "F".to_string(),
        last_name: "L".to_string(),
        access_token: token.to_string(),
    }
}

fn started(id: &str) -> InboxFlow {
    let users = vec![user("first-token"), user("second-token")];
    let (flow, act) = InboxFlow::start("me@gmail.com".to_string(), id.to_string(), &users);
    match act {
        InboxAction::Login(auth) => {
            assert_eq!(auth.user, "me@gmail.com");
            assert_eq!(auth.access_token, "first-token");
        }
        _ => panic!("a flow with a user starts by signing in"),
    }
    flow
}

fn aborted(act: InboxAction) -> InboxFailure {
    match act {
        InboxAction::Abort(why) => why,
        _ => panic!("expected the flow to give up"),
    }
}

#[test]
fn successful_run() {
    let mut flow = started("17");
    assert!(flow.stage() == Stage::AwaitLogin);
    match flow.step(InboxEvent::LoggedIn(true)) {
        InboxAction::Select(m) => assert_eq!(m, "INBOX"),
        _ => panic!("select comes after sign-in"),
    }
    match flow.step(InboxEvent::Selected) {
        InboxAction::Fetch { sequence, query } => {
            assert_eq!(sequence, "17");
            assert_eq!(query, "RFC822");
        }
        _ => panic!("fetch comes after select"),
    }
    match flow.step(InboxEvent::Fetched(Some(b"Great news!".to_vec()))) {
        InboxAction::Analyze(text) => assert_eq!(text, "Great news!"),
        _ => panic!("analysis comes after fetch"),
    }
    assert!(matches!(flow.step(InboxEvent::Analyzed(true)), InboxAction::Logout));
    match flow.step(InboxEvent::LoggedOut(true)) {
        InboxAction::Reply { id, body } => {
            assert_eq!(id, 17);
            assert_eq!(body, "Great news!");
        }
        _ => panic!("the reply comes after sign-out"),
    }
    assert!(flow.stage() == Stage::Finished);
    assert!(aborted(flow.step(InboxEvent::Selected)) == InboxFailure::OutOfOrder);
}

#[test]
fn long_body_is_cut_for_analysis_but_replied_whole() {
    let mut flow = started("3");
    flow.step(InboxEvent::LoggedIn(true));
    flow.step(InboxEvent::Selected);
    let raw = "x".repeat(6000).into_bytes();
    match flow.step(InboxEvent::Fetched(Some(raw))) {
        InboxAction::Analyze(text) => assert_eq!(text.len(), 5000),
        _ => panic!("expected analysis"),
    }
    flow.step(InboxEvent::Analyzed(true));
    match flow.step(InboxEvent::LoggedOut(true)) {
        InboxAction::Reply { id, body } => {
            assert_eq!(id, 3);
            assert_eq!(body.len(), 6000);
        }
        _ => panic!("expected a reply"),
    }
}

#[test]
fn no_user_gives_up() {
    let (flow, act) = InboxFlow::start("me@gmail.com".to_string(), "1".to_string(), &vec![]);
    assert!(aborted(act) == InboxFailure::NoUser);
    assert!(flow.stage() == Stage::Finished);
}

#[test]
fn refused_login_gives_up() {
    let mut flow = started("1");
    assert!(aborted(flow.step(InboxEvent::LoggedIn(false))) == InboxFailure::LoginRefused);
    assert!(flow.stage() == Stage::Finished);
}

#[test]
fn missing_or_bad_bodies_give_up() {
    let mut flow = started("1");
    flow.step(InboxEvent::LoggedIn(true));
    flow.step(InboxEvent::Selected);
    assert!(aborted(flow.step(InboxEvent::Fetched(None))) == InboxFailure::NoBody);

    let mut flow = started("1");
    flow.step(InboxEvent::LoggedIn(true));
    flow.step(InboxEvent::Selected);
    assert!(aborted(flow.step(InboxEvent::Fetched(Some(vec![0xff, 0xfe])))) == InboxFailure::NotUtf8);

    let mut flow = started("1");
    flow.step(InboxEvent::LoggedIn(true));
    flow.step(InboxEvent::Selected);
    let raw = format!("{}é", "a".repeat(4999)).into_bytes();
    assert!(aborted(flow.step(InboxEvent::Fetched(Some(raw)))) == InboxFailure::SplitsCharacter);
}

#[test]
fn failed_analysis_or_logout_gives_up() {
    let mut flow = started("1");
    flow.step(InboxEvent::LoggedIn(true));
    flow.step(InboxEvent::Selected);
    flow.step(InboxEvent::Fetched(Some(b"hi".to_vec())));
    assert!(aborted(flow.step(InboxEvent::Analyzed(false))) == InboxFailure::NoSentiment);

    let mut flow = started("1");
    flow.step(InboxEvent::LoggedIn(true));
    flow.step(InboxEvent::Selected);
    flow.step(InboxEvent::Fetched(Some(b"hi".to_vec())));
    flow.step(InboxEvent::Analyzed(true));
    assert!(aborted(flow.step(InboxEvent::LoggedOut(false))) == InboxFailure::LogoutFailed);
}

#[test]
fn non_numeric_message_id_gives_up_at_the_end() {
    let mut flow = started("<abc@host>");
    flow.step(InboxEvent::LoggedIn(true));
    match flow.step(InboxEvent::Selected) {
        InboxAction::Fetch { sequence, .. } => assert_eq!(sequence, "<abc@host>"),
        _ => panic!("expected fetch"),
    }
    flow.step(InboxEvent::Fetched(Some(b"hi".to_vec())));
    flow.step(InboxEvent::Analyzed(true));
    assert!(aborted(flow.step(InboxEvent::LoggedOut(true))) == InboxFailure::BadMessageId);
}

#[test]
fn reports_out_of_order_give_up() {
    let mut flow = started("1");
    assert!(aborted(flow.step(InboxEvent::Selected)) == InboxFailure::OutOfOrder);
    assert!(flow.stage() == Stage::Finished);
    assert!(aborted(flow.step(InboxEvent::LoggedIn(true))) == InboxFailure::OutOfOrder);
}
