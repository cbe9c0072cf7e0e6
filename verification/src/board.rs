//! The ticket board: ticket statuses, the columns tickets are shown in, the
//! order they are shown in, and which page or fragment shows them.
use vstd::prelude::*;
use vstd::view::View as _;

use crate::models::{Ticket, TicketView, todo_text};
use crate::templates::{TicketsList, TicketsTable, TicketsTemplate};
use crate::text::{contains_text, occurs_in, text_eq};

verus! {

broadcast use vstd::seq_lib::group_to_multiset_ensures;

// ---------------------------------------------------------------------------
// Statuses and columns
// ---------------------------------------------------------------------------

/// The status of a ticket, which is also the column it is shown in.
#[derive(Clone, Copy, Debug, PartialEq, Eq, Structural)]
pub enum Status {
    Doing,
    Todo,
    Done,
}

/// `doing`
pub open spec fn doing_text() -> Seq<char> {
    seq!['d', 'o', 'i', 'n', 'g']
}

/// `done`
pub open spec fn done_text() -> Seq<char> {
    seq!['d', 'o', 'n', 'e']
}

impl Status {
    /// The text a status is stored as.
    pub open spec fn text(self) -> Seq<char> {
        match self {
            Status::Doing => doing_text(),
            Status::Todo => todo_text(),
            Status::Done => done_text(),
        }
    }

    pub fn as_str(&self) -> (s: &'static str)
        ensures
            s@ == self.text(),
    {
        proof {
            reveal_strlit("doing");
            reveal_strlit("to-do");
            reveal_strlit("done");
        }
        match self {
            Status::Doing => "doing",
            Status::Todo => "to-do",
            Status::Done => "done",
        }
    }
}

/// The column of a ticket with the given status text: `doing` and `done`
/// have their own columns, `to-do` and any other text go to the to-do column.
pub open spec fn column_of(status: Seq<char>) -> Status {
    if status == doing_text() {
        Status::Doing
    } else if status == done_text() {
        Status::Done
    } else {
        Status::Todo
    }
}

pub fn status_column(status: &String) -> (c: Status)
    ensures
        c == column_of(status@),
{
    proof {
        reveal_strlit("doing");
        reveal_strlit("done");
        assert("doing"@ =~= doing_text());
        assert("done"@ =~= done_text());
    }
    if text_eq(status, "doing") {
        Status::Doing
    } else if text_eq(status, "done") {
        Status::Done
    } else {
        Status::Todo
    }
}

/// Whether a ticket is shown in column `c`.
pub open spec fn in_column(c: Status) -> spec_fn(TicketView) -> bool {
    |t: TicketView| column_of(t.status) == c
}

/// Whether `todo`, `doing` and `done` are the columns of `tickets`: each
/// holds the tickets of its status, in the order of `tickets`.
pub open spec fn columns_of(
    todo: Seq<TicketView>,
    doing: Seq<TicketView>,
    done: Seq<TicketView>,
    tickets: Seq<TicketView>,
) -> bool {
    &&& todo == tickets.filter(in_column(Status::Todo))
    &&& doing == tickets.filter(in_column(Status::Doing))
    &&& done == tickets.filter(in_column(Status::Done))
}

/// A ticket whose status was set to `s` is shown in the column of `s`.
pub proof fn status_text_is_in_its_column(s: Status)
    ensures
        column_of(s.text()) == s,
{
    assert(todo_text() != doing_text()) by {
        assert(todo_text()[0] != doing_text()[0]);
    }
    assert(todo_text() != done_text()) by {
        assert(todo_text()[0] != done_text()[0]);
    }
    assert(done_text() != doing_text()) by {
        assert(done_text().len() != doing_text().len());
    }
}

/// A newly created ticket, whose status is `to-do`, is shown in the to-do column.
pub proof fn new_ticket_is_in_todo_column()
    ensures
        column_of(todo_text()) == Status::Todo,
{
    status_text_is_in_its_column(Status::Todo);
}

/// Tickets split into the three columns of the board.
pub struct TicketBoard {
    pub tickets_todo: Vec<Ticket>,
    pub tickets_doing: Vec<Ticket>,
    pub tickets_done: Vec<Ticket>,
}

impl TicketBoard {
    pub open spec fn shows(self, tickets: Seq<TicketView>) -> bool {
        columns_of(
            self.tickets_todo.deep_view(),
            self.tickets_doing.deep_view(),
            self.tickets_done.deep_view(),
            tickets,
        )
    }
}

/// Splits tickets into the columns of their statuses, keeping their order.
pub fn split_by_status(tickets: Vec<Ticket>) -> (board: TicketBoard)
    ensures
        board.shows(tickets.deep_view()),
{
    let ghost input = tickets.deep_view();
    let ghost items = tickets@;
    let mut todo: Vec<Ticket> = Vec::new();
    let mut doing: Vec<Ticket> = Vec::new();
    let mut done: Vec<Ticket> = Vec::new();
    proof {
        reveal(Seq::filter);
        assert(input.take(0) =~= Seq::<TicketView>::empty());
        assert(todo.deep_view() =~= Seq::<TicketView>::empty());
        assert(doing.deep_view() =~= Seq::<TicketView>::empty());
        assert(done.deep_view() =~= Seq::<TicketView>::empty());
    }
    for ticket in it: tickets.into_iter()
        invariant
            it.seq() == items,
            input == tickets.deep_view(),
            input.len() == items.len(),
            forall|m: int| 0 <= m < items.len() ==> input[m] == #[trigger] items[m]@,
            columns_of(
                todo.deep_view(),
                doing.deep_view(),
                done.deep_view(),
                input.take(it.index() as int),
            ),
    {
        let ghost i = it.index() as int;
        let ghost t = ticket@;
        let ghost (todo0, doing0, done0) = (todo.deep_view(), doing.deep_view(), done.deep_view());
        proof {
            assert(ticket == items[i]);
            assert(input.take(i + 1) =~= input.take(i).push(t));
            input.take(i).lemma_filter_push(t, in_column(Status::Todo));
            input.take(i).lemma_filter_push(t, in_column(Status::Doing));
            input.take(i).lemma_filter_push(t, in_column(Status::Done));
        }
        match status_column(&ticket.status) {
            Status::Todo => {
                todo.push(ticket);
                assert(todo.deep_view() =~= todo0.push(t));
            },
            Status::Doing => {
                doing.push(ticket);
                assert(doing.deep_view() =~= doing0.push(t));
            },
            Status::Done => {
                done.push(ticket);
                assert(done.deep_view() =~= done0.push(t));
            },
        }
    }
    assert(input.take(input.len() as int) =~= input);
    TicketBoard { tickets_todo: todo, tickets_doing: doing, tickets_done: done }
}

// ---------------------------------------------------------------------------
// Order of creation
// ---------------------------------------------------------------------------

/// Whether tickets are in order of creation, the earliest first.
pub open spec fn sorted_by_creation(s: Seq<TicketView>) -> bool {
    forall|i: int, j: int| 0 <= i < j < s.len() ==> #[trigger] s[i].created_at <= #[trigger] s[j].created_at
}

/// Whether a ticket was created at `k`.
pub open spec fn created_at_is(k: i64) -> spec_fn(TicketView) -> bool {
    |t: TicketView| t.created_at == k
}

/// Whether `out` holds `inp` in order of creation, tickets created at the
/// same time keeping their order in `inp` (a stable sort by creation time).
pub open spec fn is_stable_sort_by_creation(out: Seq<TicketView>, inp: Seq<TicketView>) -> bool {
    &&& sorted_by_creation(out)
    &&& forall|k: i64| #[trigger] out.filter(created_at_is(k)) == inp.filter(created_at_is(k))
}

proof fn lemma_filter_none<A>(s: Seq<A>, p: spec_fn(A) -> bool)
    requires
        forall|m: int| 0 <= m < s.len() ==> !p(#[trigger] s[m]),
    ensures
        s.filter(p) == Seq::<A>::empty(),
    decreases s.len(),
{
    reveal(Seq::filter);
    if s.len() > 0 {
        assert forall|m: int| 0 <= m < s.drop_last().len() implies !p(#[trigger] s.drop_last()[m]) by {
            assert(s.drop_last()[m] == s[m]);
        }
        lemma_filter_none(s.drop_last(), p);
    }
}

proof fn lemma_filter_single<A>(x: A, p: spec_fn(A) -> bool)
    ensures
        seq![x].filter(p) == if p(x) {
            seq![x]
        } else {
            Seq::<A>::empty()
        },
{
    reveal(Seq::filter);
    assert(seq![x] =~= Seq::<A>::empty().push(x));
    Seq::<A>::empty().lemma_filter_push(x, p);
    assert(Seq::<A>::empty().filter(p) =~= Seq::<A>::empty());
}

proof fn lemma_insert_keeps_stable_sort(o: Seq<TicketView>, p: Seq<TicketView>, j: int, x: TicketView)
    requires
        is_stable_sort_by_creation(o, p),
        0 <= j <= o.len(),
        forall|m: int| 0 <= m < j ==> #[trigger] o[m].created_at <= x.created_at,
        forall|m: int| j <= m < o.len() ==> #[trigger] o[m].created_at > x.created_at,
    ensures
        is_stable_sort_by_creation(o.insert(j, x), p.push(x)),
{
    let o2 = o.insert(j, x);
    assert forall|a: int, b: int| 0 <= a < b < o2.len() implies #[trigger] o2[a].created_at
        <= #[trigger] o2[b].created_at by {
        if a < j && b < j {
            assert(o[a].created_at <= o[b].created_at);
        } else if a < j && b == j {
        } else if a < j {
            assert(o2[b] == o[b - 1]);
            assert(o[a].created_at <= o[b - 1].created_at);
        } else if a == j {
            assert(o2[b] == o[b - 1]);
        } else {
            assert(o2[a] == o[a - 1]);
            assert(o2[b] == o[b - 1]);
            assert(o[a - 1].created_at <= o[b - 1].created_at);
        }
    }
    let front = o.take(j);
    let back = o.skip(j);
    assert(o =~= front + back);
    assert(o2 =~= front + seq![x] + back);
    assert forall|k: i64| #[trigger] o2.filter(created_at_is(k)) == p.push(x).filter(
        created_at_is(k),
    ) by {
        let pk = created_at_is(k);
        Seq::filter_distributes_over_add(front, back, pk);
        Seq::filter_distributes_over_add(front + seq![x], back, pk);
        Seq::filter_distributes_over_add(front, seq![x], pk);
        lemma_filter_single(x, pk);
        p.lemma_filter_push(x, pk);
        assert(o.filter(pk) == p.filter(pk));
        if x.created_at == k {
            assert forall|m: int| 0 <= m < back.len() implies !pk(#[trigger] back[m]) by {
                assert(back[m] == o[j + m]);
            }
            lemma_filter_none(back, pk);
            assert(front.filter(pk) + Seq::<TicketView>::empty() =~= front.filter(pk));
            assert(o2.filter(pk) =~= p.filter(pk).push(x));
        } else {
            assert(front.filter(pk) + Seq::<TicketView>::empty() =~= front.filter(pk));
            assert(o2.filter(pk) =~= o.filter(pk));
        }
    }
}

/// The tickets in order of creation, the earliest first; tickets created at
/// the same time keep their order.
pub fn sort_by_creation(tickets: Vec<Ticket>) -> (sorted: Vec<Ticket>)
    ensures
        is_stable_sort_by_creation(sorted.deep_view(), tickets.deep_view()),
        sorted.deep_view().to_multiset() == tickets.deep_view().to_multiset(),
{
    let ghost input = tickets.deep_view();
    let ghost items = tickets@;
    let mut out: Vec<Ticket> = Vec::new();
    proof {
        reveal(Seq::filter);
        assert(input.take(0) =~= Seq::<TicketView>::empty());
        assert(out.deep_view() =~= Seq::<TicketView>::empty());
        assert forall|k: i64| #[trigger] out.deep_view().filter(created_at_is(k)) == input.take(
            0,
        ).filter(created_at_is(k)) by {}
    }
    for ticket in it: tickets.into_iter()
        invariant
            it.seq() == items,
            input == tickets.deep_view(),
            input.len() == items.len(),
            forall|m: int| 0 <= m < items.len() ==> input[m] == #[trigger] items[m]@,
            is_stable_sort_by_creation(out.deep_view(), input.take(it.index() as int)),
            out.deep_view().to_multiset() == input.take(it.index() as int).to_multiset(),
    {
        let ghost i = it.index() as int;
        let ghost t = ticket@;
        let ghost o = out.deep_view();
        let key = ticket.created_at;
        let mut j = out.len();
        while j > 0 && out[j - 1].created_at > key
            invariant
                j <= out.len(),
                o == out.deep_view(),
                sorted_by_creation(o),
                forall|m: int| j <= m < o.len() ==> #[trigger] o[m].created_at > key,
            decreases j,
        {
            j = j - 1;
        }
        proof {
            assert(ticket == items[i]);
            assert forall|m: int| 0 <= m < j implies #[trigger] o[m].created_at <= key by {
                assert(o[j - 1].created_at <= key);
                if m < j - 1 {
                    assert(o[m].created_at <= o[j - 1].created_at);
                }
            }
            lemma_insert_keeps_stable_sort(o, input.take(i), j as int, t);
            assert(input.take(i + 1) =~= input.take(i).push(t));
        }
        out.insert(j, ticket);
        proof {
            assert(out.deep_view() =~= o.insert(j as int, t));
        }
    }
    assert(input.take(input.len() as int) =~= input);
    out
}

// ---------------------------------------------------------------------------
// Laws of the board
// ---------------------------------------------------------------------------

proof fn lemma_filter_keeps_order(s: Seq<TicketView>, p: spec_fn(TicketView) -> bool)
    requires
        sorted_by_creation(s),
    ensures
        sorted_by_creation(s.filter(p)),
    decreases s.len(),
{
    reveal(Seq::filter);
    if s.len() > 0 {
        let init = s.drop_last();
        assert(sorted_by_creation(init)) by {
            assert forall|i: int, j: int| 0 <= i < j < init.len() implies #[trigger] init[i].created_at
                <= #[trigger] init[j].created_at by {
                assert(s[i].created_at <= s[j].created_at);
            }
        }
        lemma_filter_keeps_order(init, p);
        let f = init.filter(p);
        if p(s.last()) {
            assert forall|i: int, j: int| 0 <= i < j < f.push(s.last()).len() implies #[trigger] f.push(
                s.last(),
            )[i].created_at <= #[trigger] f.push(s.last())[j].created_at by {
                if j == f.len() {
                    assert(f.contains(f[i]));
                    init.lemma_filter_contains_rev(p, f[i]);
                    let m = choose|m: int| 0 <= m < init.len() && init[m] == f[i];
                    assert(s[m].created_at <= s[s.len() - 1].created_at);
                }
            }
        }
    }
}

proof fn lemma_filters_commute<A>(s: Seq<A>, p: spec_fn(A) -> bool, q: spec_fn(A) -> bool)
    ensures
        s.filter(p).filter(q) == s.filter(q).filter(p),
    decreases s.len(),
{
    reveal(Seq::filter);
    if s.len() > 0 {
        let init = s.drop_last();
        let x = s.last();
        lemma_filters_commute(init, p, q);
        assert(s =~= init.push(x));
        init.lemma_filter_push(x, p);
        init.lemma_filter_push(x, q);
        init.filter(p).lemma_filter_push(x, q);
        init.filter(q).lemma_filter_push(x, p);
    }
}

/// Sorting by creation and then taking the tickets of one column gives the
/// column of the unsorted tickets, sorted by creation: each column of a
/// sorted board is in order of creation, stably.
pub proof fn column_of_sorted_is_sorted_column(
    sorted: Seq<TicketView>,
    tickets: Seq<TicketView>,
    c: Status,
)
    requires
        is_stable_sort_by_creation(sorted, tickets),
    ensures
        is_stable_sort_by_creation(sorted.filter(in_column(c)), tickets.filter(in_column(c))),
{
    lemma_filter_keeps_order(sorted, in_column(c));
    assert forall|k: i64| #[trigger] sorted.filter(in_column(c)).filter(created_at_is(k))
        == tickets.filter(in_column(c)).filter(created_at_is(k)) by {
        lemma_filters_commute(sorted, in_column(c), created_at_is(k));
        lemma_filters_commute(tickets, in_column(c), created_at_is(k));
        assert(sorted.filter(created_at_is(k)) == tickets.filter(created_at_is(k)));
    }
}

/// Every ticket is shown in exactly one column: the columns together hold as
/// many tickets as there are, and each holds only tickets of its status.
pub proof fn every_ticket_in_one_column(
    todo: Seq<TicketView>,
    doing: Seq<TicketView>,
    done: Seq<TicketView>,
    tickets: Seq<TicketView>,
)
    requires
        columns_of(todo, doing, done, tickets),
    ensures
        todo.len() + doing.len() + done.len() == tickets.len(),
        forall|i: int| 0 <= i < todo.len() ==> column_of(#[trigger] todo[i].status) == Status::Todo,
        forall|i: int| 0 <= i < doing.len() ==> column_of(#[trigger] doing[i].status) == Status::Doing,
        forall|i: int| 0 <= i < done.len() ==> column_of(#[trigger] done[i].status) == Status::Done,
    decreases tickets.len(),
{
    broadcast use vstd::seq_lib::group_filter_ensures;

    reveal(Seq::filter);
    if tickets.len() > 0 {
        let init = tickets.drop_last();
        let x = tickets.last();
        every_ticket_in_one_column(
            init.filter(in_column(Status::Todo)),
            init.filter(in_column(Status::Doing)),
            init.filter(in_column(Status::Done)),
            init,
        );
    }
}

// ---------------------------------------------------------------------------
// Choosing what shows the tickets
// ---------------------------------------------------------------------------

/// How the tickets page lays the tickets out.
#[derive(Clone, Copy, Debug, PartialEq, Eq, Structural)]
pub enum View {
    Table,
    List,
}

/// Whose tickets the tickets page shows.
#[derive(Clone, Copy, Debug, PartialEq, Eq, Structural)]
pub enum CreatedBy {
    Everyone,
    Me,
}

/// The query parameters of the tickets page.
#[derive(Debug)]
pub struct ViewParams {
    pub view: Option<View>,
    pub created_by: Option<CreatedBy>,
}

impl ViewParams {
    /// Whose tickets to show: everyone's unless the parameters ask otherwise.
    pub fn created_by_or_everyone(&self) -> (c: CreatedBy)
        ensures
            c == match self.created_by {
                Some(c) => c,
                None => CreatedBy::Everyone,
            },
    {
        match self.created_by {
            Some(c) => c,
            None => CreatedBy::Everyone,
        }
    }
}

/// A page or fragment showing tickets.
pub enum TicketsView {
    /// The table fragment.
    Table(TicketsTable),
    /// The list fragment.
    List(TicketsList),
    /// The full page.
    Page(TicketsTemplate),
}

/// `list`
pub open spec fn list_text() -> Seq<char> {
    seq!['l', 'i', 's', 't']
}

/// Whether a view shows columns with the given contents.
pub open spec fn view_shows_columns(
    v: TicketsView,
    todo: spec_fn(Seq<TicketView>) -> bool,
    doing: spec_fn(Seq<TicketView>) -> bool,
    done: spec_fn(Seq<TicketView>) -> bool,
) -> bool {
    match v {
        TicketsView::Table(t) => todo(t.tickets_todo.deep_view()) && doing(
            t.tickets_doing.deep_view(),
        ) && done(t.tickets_done.deep_view()),
        TicketsView::List(l) => todo(l.tickets_todo.deep_view()) && doing(
            l.tickets_doing.deep_view(),
        ) && done(l.tickets_done.deep_view()),
        TicketsView::Page(p) => todo(p.tickets_todo.deep_view()) && doing(
            p.tickets_doing.deep_view(),
        ) && done(p.tickets_done.deep_view()),
    }
}

/// The fragment that shows tickets after a status change: the list when the
/// page it came from has `list` in its address, the table otherwise, with the
/// tickets in the columns of their statuses, in their given order.
pub fn render_ticket_table(tickets: Vec<Ticket>, referer: &str) -> (v: TicketsView)
    ensures
        match v {
            TicketsView::List(_) => occurs_in(list_text(), referer@),
            TicketsView::Table(_) => !occurs_in(list_text(), referer@),
            TicketsView::Page(_) => false,
        },
        view_shows_columns(
            v,
            |s: Seq<TicketView>| s == tickets.deep_view().filter(in_column(Status::Todo)),
            |s: Seq<TicketView>| s == tickets.deep_view().filter(in_column(Status::Doing)),
            |s: Seq<TicketView>| s == tickets.deep_view().filter(in_column(Status::Done)),
        ),
{
    let board = split_by_status(tickets);
    proof {
        reveal_strlit("list");
        assert("list"@ =~= list_text());
    }
    if contains_text(referer, "list") {
        TicketsView::List(
            TicketsList {
                tickets_todo: board.tickets_todo,
                tickets_doing: board.tickets_doing,
                tickets_done: board.tickets_done,
            },
        )
    } else {
        TicketsView::Table(
            TicketsTable {
                tickets_todo: board.tickets_todo,
                tickets_doing: board.tickets_doing,
                tickets_done: board.tickets_done,
            },
        )
    }
}

/// The page or fragment of the tickets page: with a view asked for, a
/// request made by htmx gets that view's fragment and any other request the
/// full page in that view; with none asked for, the full page in the table
/// view.
pub open spec fn tickets_page_kind(view: Option<View>, hx_request: bool) -> (bool, View) {
    match view {
        Some(v) => (!hx_request, v),
        None => (true, View::Table),
    }
}

/// Which page shows the tickets: the full page whenever no view is asked for
/// (htmx or not), in the table view; a fragment only when htmx asks for a
/// view; and always the view that was asked for.
pub proof fn tickets_page_shows_the_asked_view(view: Option<View>, hx_request: bool)
    ensures
        view is None ==> tickets_page_kind(view, hx_request) == (true, View::Table),
        view matches Some(w) ==> tickets_page_kind(view, hx_request).1 == w,
        !tickets_page_kind(view, hx_request).0 <==> (hx_request && view is Some),
{
}

/// The tickets page for the signed-in user named `username`: the tickets in
/// the columns of their statuses, each column in order of creation.
pub fn tickets_page(tickets: Vec<Ticket>, view: Option<View>, hx_request: bool, username: &str) -> (v: TicketsView)
    ensures
        match v {
            TicketsView::Table(_) => tickets_page_kind(view, hx_request) == (false, View::Table),
            TicketsView::List(_) => tickets_page_kind(view, hx_request) == (false, View::List),
            TicketsView::Page(p) => tickets_page_kind(view, hx_request) == (true, p.view_type)
                && p.username@ == username@,
        },
        // With no view asked for: the full page, in the table view.
        view is None ==> (v matches TicketsView::Page(p) && p.view_type == View::Table),
        // A view asked for outside htmx: the full page in exactly that view.
        (view matches Some(w) && !hx_request) ==> (v matches TicketsView::Page(p) && Some(
            p.view_type,
        ) == view),
        // A view asked for by htmx: the fragment of that view.
        (view == Some(View::Table) && hx_request) ==> v is Table,
        (view == Some(View::List) && hx_request) ==> v is List,
        view_shows_columns(
            v,
            |s: Seq<TicketView>|
                is_stable_sort_by_creation(s, tickets.deep_view().filter(in_column(Status::Todo))),
            |s: Seq<TicketView>|
                is_stable_sort_by_creation(s, tickets.deep_view().filter(in_column(Status::Doing))),
            |s: Seq<TicketView>|
                is_stable_sort_by_creation(s, tickets.deep_view().filter(in_column(Status::Done))),
        ),
{
    let ghost input = tickets.deep_view();
    let sorted = sort_by_creation(tickets);
    let ghost s = sorted.deep_view();
    let board = split_by_status(sorted);
    proof {
        column_of_sorted_is_sorted_column(s, input, Status::Todo);
        column_of_sorted_is_sorted_column(s, input, Status::Doing);
        column_of_sorted_is_sorted_column(s, input, Status::Done);
    }
    match view {
        Some(v) => {
            if hx_request {
                match v {
                    View::Table => TicketsView::Table(
                        TicketsTable {
                            tickets_todo: board.tickets_todo,
                            tickets_doing: board.tickets_doing,
                            tickets_done: board.tickets_done,
                        },
                    ),
                    View::List => TicketsView::List(
                        TicketsList {
                            tickets_todo: board.tickets_todo,
                            tickets_doing: board.tickets_doing,
                            tickets_done: board.tickets_done,
                        },
                    ),
                }
            } else {
                TicketsView::Page(
                    TicketsTemplate {
                        username: username.to_owned(),
                        view_type: v,
                        tickets_todo: board.tickets_todo,
                        tickets_doing: board.tickets_doing,
                        tickets_done: board.tickets_done,
                    },
                )
            }
        },
        None => TicketsView::Page(
            TicketsTemplate {
                username: username.to_owned(),
                view_type: View::Table,
                tickets_todo: board.tickets_todo,
                tickets_doing: board.tickets_doing,
                tickets_done: board.tickets_done,
            },
        ),
    }
}

} // verus!
