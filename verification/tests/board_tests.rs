use ticketing::board::{
    status_column, render_ticket_table, sort_by_creation, split_by_status, tickets_page, CreatedBy,
    Status, TicketsView, View, ViewParams,
};
use ticketing::models::{tickets_from_rows, Ticket, TicketC, TicketFC};
use ticketing::templates::fmtdate;
use ticketing::text::contains_text;

fn ticket(id: i32, status: &str, created_at: i64) -> Ticket {
    Ticket {
        id,
        creator_id: 1,
        creator_name: "ann".to_string(),
        title: format!("t{id}"),
        status: status.to_string(),
        description: String::new(),
        created_at,
    }
}

fn ids(ts: &[Ticket]) -> Vec<i32> {
    ts.iter().map(|t| t.id).collect()
}

#[test]
fn status_texts_and_columns() {
    assert_eq!(Status::Doing.as_str(), "doing");
    assert_eq!(Status::Todo.as_str(), "to-do");
    assert_eq!(Status::Done.as_str(), "done");
    for s in [Status::Doing, Status::Todo, Status::Done] {
        assert_eq!(status_column(&s.as_str().to_string()), s);
    }
    assert_eq!(status_column(&"weird".to_string()), Status::Todo);
    assert_eq!(status_column(&"Done".to_string()), Status::Todo);
    assert_eq!(status_column(&String::new()), Status::Todo);
}

#[test]
fn new_ticket_is_todo() {
    let fc = TicketFC::new("Fix".to_string(), "the bug".to_string());
    assert_eq!(fc.title, "Fix");
    assert_eq!(fc.description, "the bug");
    assert_eq!(fc.status, "to-do");
    assert_eq!(status_column(&fc.status), Status::Todo);
}

#[test]
fn split_keeps_order_within_columns() {
    let tickets = vec![
        ticket(1, "done", 5),
        ticket(2, "to-do", 4),
        ticket(3, "doing", 3),
        ticket(4, "other", 2),
        ticket(5, "done", 1),
    ];
    let board = split_by_status(tickets);
    assert_eq!(ids(&board.tickets_todo), vec![2, 4]);
    assert_eq!(ids(&board.tickets_doing), vec![3]);
    assert_eq!(ids(&board.tickets_done), vec![1, 5]);
}

#[test]
fn sort_is_stable_by_creation() {
    let tickets = vec![
        ticket(1, "to-do", 30),
        ticket(2, "to-do", 10),
        ticket(3, "to-do", 20),
        ticket(4, "to-do", 10),
        ticket(5, "to-do", -5),
        ticket(6, "to-do", 20),
    ];
    assert_eq!(ids(&sort_by_creation(tickets)), vec![5, 2, 4, 3, 6, 1]);
    assert!(sort_by_creation(Vec::new()).is_empty());
}

#[test]
fn tickets_page_full_in_table_by_default() {
    let tickets = vec![ticket(1, "doing", 9), ticket(2, "doing", 3), ticket(3, "to-do", 1)];
    match tickets_page(tickets, None, true, "ann") {
        TicketsView::Page(p) => {
            assert_eq!(p.username, "ann");
            assert_eq!(p.view_type, View::Table);
            assert_eq!(ids(&p.tickets_doing), vec![2, 1]);
            assert_eq!(ids(&p.tickets_todo), vec![3]);
            assert!(p.tickets_done.is_empty());
        }
        _ => panic!("expected the full page"),
    }
}

#[test]
fn tickets_page_fragments_for_htmx() {
    let make = || vec![ticket(1, "done", 2), ticket(2, "done", 1)];
    match tickets_page(make(), Some(View::List), true, "ann") {
        TicketsView::List(l) => assert_eq!(ids(&l.tickets_done), vec![2, 1]),
        _ => panic!("expected the list fragment"),
    }
    match tickets_page(make(), Some(View::Table), true, "ann") {
        TicketsView::Table(t) => assert_eq!(ids(&t.tickets_done), vec![2, 1]),
        _ => panic!("expected the table fragment"),
    }
    match tickets_page(make(), Some(View::List), false, "ann") {
        TicketsView::Page(p) => assert_eq!(p.view_type, View::List),
        _ => panic!("expected the full page"),
    }
}

#[test]
fn ticket_table_follows_referer() {
    let make = || vec![ticket(1, "doing", 2), ticket(2, "to-do", 1)];
    match render_ticket_table(make(), "http://x/tickets?view=list") {
        TicketsView::List(l) => {
            assert_eq!(ids(&l.tickets_doing), vec![1]);
            assert_eq!(ids(&l.tickets_todo), vec![2]);
        }
        _ => panic!("expected the list fragment"),
    }
    match render_ticket_table(make(), "http://x/tickets?view=table") {
        TicketsView::Table(t) => assert_eq!(ids(&t.tickets_doing), vec![1]),
        _ => panic!("expected the table fragment"),
    }
    assert!(matches!(render_ticket_table(make(), "lis"), TicketsView::Table(_)));
    assert!(matches!(render_ticket_table(make(), ""), TicketsView::Table(_)));
}

#[test]
fn view_params_default_to_everyone() {
    let p = ViewParams { view: None, created_by: None };
    assert_eq!(p.created_by_or_everyone(), CreatedBy::Everyone);
    let p = ViewParams { view: Some(View::List), created_by: Some(CreatedBy::Me) };
    assert_eq!(p.created_by_or_everyone(), CreatedBy::Me);
}

#[test]
fn rows_become_tickets_of_their_creator() {
    let rows = vec![
        TicketC { id: 3, creator_id: 9, title: "a".into(), status: "done".into(), description: "x".into(), created_at: 11 },
        TicketC { id: 4, creator_id: 9, title: "b".into(), status: "to-do".into(), description: "y".into(), created_at: 12 },
    ];
    let tickets = tickets_from_rows(rows.clone(), "zed");
    assert_eq!(tickets.len(), 2);
    assert_eq!(tickets[0], Ticket::from_ticket_c(rows[0].clone(), "zed"));
    assert_eq!(tickets[1].id, 4);
    assert_eq!(tickets[1].creator_name, "zed");
    assert_eq!(tickets[1].title, "b");
    assert_eq!(tickets[1].status, "to-do");
    assert_eq!(tickets[1].description, "y");
    assert_eq!(tickets[1].created_at, 12);
    assert_eq!(tickets[1].creator_id, 9);
}

#[test]
fn text_containment() {
    assert!(contains_text("a list here", "list"));
    assert!(contains_text("list", "list"));
    assert!(!contains_text("lis", "list"));
    assert!(contains_text("abc", ""));
    assert!(!contains_text("", "x"));
    assert!(contains_text("llist", "list"));
}

#[test]
fn creation_dates_are_formatted() {
    assert_eq!(fmtdate(0).as_deref(), Some("1970-01-01"));
    assert_eq!(fmtdate(-1).as_deref(), Some("1969-12-31"));
    assert_eq!(fmtdate(86_400_000_000 - 1).as_deref(), Some("1970-01-01"));
    assert_eq!(fmtdate(86_400_000_000).as_deref(), Some("1970-01-02"));
    assert_eq!(fmtdate(1_662_921_288_000_000).as_deref(), Some("2022-09-11"));
    assert_eq!(fmtdate(-2_208_936_075_000_000).as_deref(), Some("1900-01-01"));
    assert_eq!(fmtdate(i64::MAX), None);
    assert_eq!(fmtdate(i64::MIN), None);
}
