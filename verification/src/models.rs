//! The records that the service stores and shows: tickets and new users.
use vstd::prelude::*;

use crate::error::Error;

verus! {

/// A ticket as a mathematical value.
pub struct TicketView {
    pub id: i32,
    pub creator_id: i32,
    pub creator_name: Seq<char>,
    pub title: Seq<char>,
    pub status: Seq<char>,
    pub description: Seq<char>,
    pub created_at: i64,
}

/// The ticket that is shown to the client, with the name of its creator.
///
/// `created_at` is the creation time in microseconds since the Unix epoch
/// (UTC), the precision at which the database keeps it.
#[derive(Clone, Debug, PartialEq, Eq)]
pub struct Ticket {
    pub id: i32,
    pub creator_id: i32,
    pub creator_name: String,
    pub title: String,
    pub status: String,
    pub description: String,
    pub created_at: i64,
}

impl View for Ticket {
    type V = TicketView;

    open spec fn view(&self) -> TicketView {
        TicketView {
            id: self.id,
            creator_id: self.creator_id,
            creator_name: self.creator_name@,
            title: self.title@,
            status: self.status@,
            description: self.description@,
            created_at: self.created_at,
        }
    }
}

impl DeepView for Ticket {
    type V = TicketView;

    open spec fn deep_view(&self) -> TicketView {
        self@
    }
}

/// A ticket as it is stored in the `tickets` table.
#[derive(Clone, Debug, PartialEq, Eq)]
pub struct TicketC {
    pub id: i32,
    pub creator_id: i32,
    pub title: String,
    pub status: String,
    pub description: String,
    pub created_at: i64,
}

/// What a client submits to create a ticket.
#[derive(Debug, PartialEq, Eq)]
pub struct TicketFC {
    pub title: String,
    pub status: String,
    pub description: String,
}

/// `to-do`, the status of a new ticket.
pub open spec fn todo_text() -> Seq<char> {
    seq!['t', 'o', '-', 'd', 'o']
}

/// The ticket that `row` stands for, created by the user named `creator_name`.
pub open spec fn ticket_of_row(row: TicketC, creator_name: Seq<char>) -> TicketView {
    TicketView {
        id: row.id,
        creator_id: row.creator_id,
        creator_name: creator_name,
        title: row.title@,
        status: row.status@,
        description: row.description@,
        created_at: row.created_at,
    }
}

/// A ticket built from a stored row keeps every field of the row, its status
/// included, and only adds the creator's name.
pub proof fn ticket_keeps_row_fields(row: TicketC, creator_name: Seq<char>)
    ensures
        ticket_of_row(row, creator_name).id == row.id,
        ticket_of_row(row, creator_name).creator_id == row.creator_id,
        ticket_of_row(row, creator_name).creator_name == creator_name,
        ticket_of_row(row, creator_name).title == row.title@,
        ticket_of_row(row, creator_name).status == row.status@,
        ticket_of_row(row, creator_name).description == row.description@,
        ticket_of_row(row, creator_name).created_at == row.created_at,
{
}

/// The tickets built from stored rows are the rows, one for one and in
/// order, each with its own fields and status and the given creator name.
pub proof fn tickets_from_rows_keep_rows(rows: Seq<TicketC>, creator_name: Seq<char>, i: int)
    requires
        0 <= i < rows.len(),
    ensures
        rows.map_values(|row: TicketC| ticket_of_row(row, creator_name)).len() == rows.len(),
        rows.map_values(|row: TicketC| ticket_of_row(row, creator_name))[i].status == rows[i].status@,
        rows.map_values(|row: TicketC| ticket_of_row(row, creator_name))[i].id == rows[i].id,
        rows.map_values(|row: TicketC| ticket_of_row(row, creator_name))[i].title == rows[i].title@,
        rows.map_values(|row: TicketC| ticket_of_row(row, creator_name))[i].description
            == rows[i].description@,
        rows.map_values(|row: TicketC| ticket_of_row(row, creator_name))[i].created_at
            == rows[i].created_at,
        rows.map_values(|row: TicketC| ticket_of_row(row, creator_name))[i].creator_id
            == rows[i].creator_id,
        rows.map_values(|row: TicketC| ticket_of_row(row, creator_name))[i].creator_name
            == creator_name,
{
}

impl Ticket {
    pub fn from_ticket_c(ticket_c: TicketC, creator_name: &str) -> (ticket: Self)
        ensures
            ticket@ == ticket_of_row(ticket_c, creator_name@),
            ticket.id == ticket_c.id,
            ticket.creator_id == ticket_c.creator_id,
            ticket.creator_name@ == creator_name@,
            ticket.title@ == ticket_c.title@,
            ticket.status@ == ticket_c.status@,
            ticket.description@ == ticket_c.description@,
            ticket.created_at == ticket_c.created_at,
    {
        Ticket {
            id: ticket_c.id,
            creator_id: ticket_c.creator_id,
            creator_name: creator_name.to_owned(),
            title: ticket_c.title,
            status: ticket_c.status,
            description: ticket_c.description,
            created_at: ticket_c.created_at,
        }
    }
}

/// The tickets that stored rows stand for, all created by the user named
/// `creator_name`, in the order of the rows.
pub fn tickets_from_rows(rows: Vec<TicketC>, creator_name: &str) -> (tickets: Vec<Ticket>)
    ensures
        tickets.deep_view() == rows@.map_values(|row: TicketC| ticket_of_row(row, creator_name@)),
{
    let ghost rs = rows@;
    let mut tickets: Vec<Ticket> = Vec::new();
    for row in it: rows.into_iter()
        invariant
            it.seq() == rs,
            tickets.deep_view() == rs.take(it.index() as int).map_values(
                |row: TicketC| ticket_of_row(row, creator_name@),
            ),
    {
        let ghost i = it.index();
        let ghost before = tickets.deep_view();
        let ghost spec_row = row;
        tickets.push(Ticket::from_ticket_c(row, creator_name));
        proof {
            assert(spec_row == rs[i as int]);
            assert(rs.take(i + 1) =~= rs.take(i as int).push(spec_row));
            assert(tickets.deep_view() =~= before.push(ticket_of_row(spec_row, creator_name@)));
            assert(rs.take(i + 1).map_values(|row: TicketC| ticket_of_row(row, creator_name@))
                =~= rs.take(i as int).map_values(|row: TicketC| ticket_of_row(row, creator_name@)).push(
                ticket_of_row(spec_row, creator_name@),
            ));
        }
    }
    assert(rs.take(rs.len() as int) =~= rs);
    tickets
}

impl TicketFC {
    /// A new ticket with the given title and description, to be done.
    pub fn new(title: String, description: String) -> (fc: Self)
        ensures
            fc.title@ == title@,
            fc.description@ == description@,
            fc.status@ == todo_text(),
    {
        proof {
            reveal_strlit("to-do");
        }
        TicketFC { title, description, status: "to-do".to_owned() }
    }
}

/// A user to be registered: the name and the bcrypt hash of the password.
#[derive(Debug, PartialEq, Eq)]
pub struct UserCreate {
    pub username: String,
    pub hashed_password: String,
}

/// The operations of the model controller that can fail on the database.
#[derive(Clone, Copy, Debug, PartialEq, Eq, Structural)]
pub enum ModelOp {
    CreateTicket,
    GetTickets,
    GetUserTickets,
    GetTicket,
    DeleteTicket,
    UpdateTicket,
    UpdateTicketDescription,
    RegisterNew,
    GetUserId,
    GetUsername,
}

impl ModelOp {
    /// The error a failed database operation is reported as.
    pub open spec fn failure_error(self) -> Error {
        match self {
            ModelOp::CreateTicket => Error::TicketCreationFailed,
            ModelOp::GetTickets | ModelOp::GetUserTickets | ModelOp::GetTicket => Error::NoTicketsFound,
            ModelOp::DeleteTicket => Error::TicketNotFound,
            ModelOp::UpdateTicket | ModelOp::UpdateTicketDescription => Error::UpdateTicketError,
            ModelOp::RegisterNew | ModelOp::GetUserId => Error::UserCreateFail,
            ModelOp::GetUsername => Error::UserIdNotFound,
        }
    }

    pub fn failure(&self) -> (e: Error)
        ensures
            e == self.failure_error(),
    {
        match self {
            ModelOp::CreateTicket => Error::TicketCreationFailed,
            ModelOp::GetTickets | ModelOp::GetUserTickets | ModelOp::GetTicket => Error::NoTicketsFound,
            ModelOp::DeleteTicket => Error::TicketNotFound,
            ModelOp::UpdateTicket | ModelOp::UpdateTicketDescription => Error::UpdateTicketError,
            ModelOp::RegisterNew | ModelOp::GetUserId => Error::UserCreateFail,
            ModelOp::GetUsername => Error::UserIdNotFound,
        }
    }
}

} // verus!
