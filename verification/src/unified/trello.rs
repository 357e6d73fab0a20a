//! The Trello adapter of the unified interface.
//!
//! Cards belong to the lists of a board, so both operations take two
//! requests: a listing asks for the cards and then for the lists that name
//! their states; a creation asks for the lists and then posts the card to
//! the first of them.

use crate::http::{choose_scope, first_of, Step};
use crate::json::{
    array_items, json_data, json_text, render, string_field, string_field_or, text_member,
    text_member_or, JsonData,
};
use crate::providers::trello::{
    board_request, board_url, card_list_name, list_name_for, list_views, new_card_request,
    new_card_view, trello_get, TrelloList, TrelloListView,
};
use crate::text::as_text;
use crate::unified::{
    issue_views, ErrorView, IssueView, ProviderId, UnifiedCreateParams, UnifiedError,
    UnifiedIssue, UnifiedListQuery,
};
use serde_json::Value;
use vstd::prelude::*;
use vstd::string::*;

verus! {

/// The Trello adapter: a token, the key of the application and the board to
/// work on when a call names none.
pub struct TrelloClient {
    token: String,
    api_key: String,
    default_board: Option<String>,
}

/// The mathematical content of the adapter.
pub struct TrelloClientView {
    pub token: Seq<char>,
    pub api_key: Seq<char>,
    pub default_board: Option<Seq<char>>,
}

impl View for TrelloClient {
    type V = TrelloClientView;

    closed spec fn view(&self) -> TrelloClientView {
        TrelloClientView {
            token: self.token@,
            api_key: self.api_key@,
            default_board: self.default_board.deep_view(),
        }
    }
}

/// The list that a JSON record describes, if it has an `id` and a `name`.
pub open spec fn list_of(d: JsonData) -> Option<TrelloListView> {
    match (text_member(d, "id"@), text_member(d, "name"@)) {
        (Some(id), Some(name)) => Some(TrelloListView { id, name }),
        _ => None,
    }
}

/// Whether every record describes a list.
pub open spec fn all_lists(items: Seq<Value>) -> bool {
    forall|i: int| 0 <= i < items.len() ==> list_of(json_data(#[trigger] items[i])) is Some
}

/// The lists that a reply names, in its order; none where the reply is no
/// array, or where one of its elements lacks an `id` or a `name`.
pub open spec fn lists_of(reply: Value) -> Option<Seq<TrelloListView>> {
    match array_items(reply) {
        Some(items) => if all_lists(items) {
            Some(items.map_values(|item: Value| list_of(json_data(item))->0))
        } else {
            None
        },
        None => None,
    }
}

/// The unified record for a card. Its state is the name of the list it is
/// on; the card itself is kept as the raw payload.
pub open spec fn trello_issue(card: Value, lists: Seq<TrelloListView>) -> IssueView {
    let d = json_data(card);
    IssueView {
        id: text_member_or(d, "id"@, Seq::empty()),
        title: text_member_or(d, "name"@, "untitled"@),
        state: card_list_name(d, lists),
        url: text_member(d, "url"@),
        provider: ProviderId::Trello,
        raw_payload: card,
    }
}

/// The error for a call that names no board, where the adapter has no
/// default either.
pub open spec fn board_required() -> ErrorView {
    ErrorView::Configuration("board is required"@)
}

/// The error for a board that has no list to put a card on.
pub open spec fn no_lists_found() -> ErrorView {
    ErrorView::Configuration("No lists found on board"@)
}

/// What `list` answers while replies are outstanding: first the request for
/// the cards of the board, then the request for its lists.
pub open spec fn list_opening(
    r: Result<Step<Vec<UnifiedIssue>>, UnifiedError>,
    board: Option<Seq<char>>,
    client: TrelloClientView,
    received: nat,
) -> bool {
    match board {
        Some(id) => r matches Ok(Step::Send(request)) && request@ == trello_get(
            board_url(
                id,
                if received == 0 {
                    "/cards"@
                } else {
                    "/lists"@
                },
            ),
            client.api_key,
            client.token,
        ),
        None => r matches Err(e) && e@ == board_required(),
    }
}

/// What `list` answers to the two replies: one record per card, in the order
/// of the first reply, each with the name of its list from the second. A
/// reply of another shape is refused and kept as text: the first where it is
/// no array, else the second where it does not name the lists.
pub open spec fn list_closing(
    r: Result<Step<Vec<UnifiedIssue>>, UnifiedError>,
    cards: Value,
    lists: Value,
) -> bool {
    match array_items(cards) {
        None => r matches Err(e) && e@ == ErrorView::UnexpectedResponse(json_text(cards)),
        Some(items) => match lists_of(lists) {
            None => r matches Err(e) && e@ == ErrorView::UnexpectedResponse(json_text(lists)),
            Some(known) => r matches Ok(Step::Done(issues)) && issue_views(issues@)
                == items.map_values(|card: Value| trello_issue(card, known)),
        },
    }
}

/// The list that takes a new card: the first list that the reply names.
pub enum TargetList {
    /// The reply does not name the lists of a board.
    Malformed,
    /// The board has no lists.
    Missing,
    /// The identifier of the first list.
    Found(Seq<char>),
}

pub open spec fn target_list(reply: Value) -> TargetList {
    match lists_of(reply) {
        None => TargetList::Malformed,
        Some(known) => if known.len() == 0 {
            TargetList::Missing
        } else {
            TargetList::Found(known[0].id)
        },
    }
}

/// What `create` answers to the reply that holds the new card: its record,
/// with the name of its list from the lists of the board.
pub open spec fn create_closing(
    r: Result<Step<UnifiedIssue>, UnifiedError>,
    lists: Value,
    card: Value,
) -> bool {
    match lists_of(lists) {
        Some(known) => r matches Ok(Step::Done(issue)) && issue@ == trello_issue(card, known),
        None => r matches Err(e) && e@ == ErrorView::UnexpectedResponse(json_text(lists)),
    }
}

/// What `create` answers to the lists of the board: the request that posts
/// the card to the first list. A board without lists is a configuration
/// error; a reply of another shape is refused and kept as text.
pub open spec fn create_posting(
    r: Result<Step<UnifiedIssue>, UnifiedError>,
    lists: Value,
    client: TrelloClientView,
    title: Seq<char>,
    body: Option<Seq<char>>,
) -> bool {
    match target_list(lists) {
        TargetList::Found(id) => r matches Ok(Step::Send(request)) && request@ == new_card_view(
            client.api_key,
            client.token,
            title,
            id,
            body,
        ),
        TargetList::Missing => r matches Err(e) && e@ == no_lists_found(),
        TargetList::Malformed => r matches Err(e) && e@ == ErrorView::UnexpectedResponse(
            json_text(lists),
        ),
    }
}

/// What `list` answers: a request while fewer than two replies have come,
/// then the cards.
pub open spec fn list_answer(
    client: TrelloClientView,
    board: Option<Seq<char>>,
    replies: Seq<Value>,
    r: Result<Step<Vec<UnifiedIssue>>, UnifiedError>,
) -> bool {
    if replies.len() < 2 {
        list_opening(r, first_of(board, client.default_board), client, replies.len())
    } else {
        list_closing(r, replies[0], replies[1])
    }
}

/// What `create` answers: the request for the lists, then the request that
/// posts the card, then the record of the new card. A reply that does not
/// name the lists of a board is refused and kept as text.
pub open spec fn create_answer(
    client: TrelloClientView,
    board: Option<Seq<char>>,
    title: Seq<char>,
    body: Option<Seq<char>>,
    replies: Seq<Value>,
    r: Result<Step<UnifiedIssue>, UnifiedError>,
) -> bool {
    if replies.len() == 0 {
        match first_of(board, client.default_board) {
            Some(id) => r matches Ok(Step::Send(request)) && request@ == trello_get(
                board_url(id, "/lists"@),
                client.api_key,
                client.token,
            ),
            None => r matches Err(e) && e@ == board_required(),
        }
    } else if replies.len() == 1 {
        create_posting(r, replies[0], client, title, body)
    } else {
        create_closing(r, replies[0], replies[1])
    }
}

/// Reads the lists that a reply names; none where the reply does not name
/// the lists of a board.
pub fn read_lists(reply: &Value) -> (r: Option<Vec<TrelloList>>)
    ensures
        match lists_of(*reply) {
            Some(known) => r matches Some(lists) && list_views(lists@) == known,
            None => r is None,
        },
{
    let items = match reply.as_array() {
        Some(items) => items,
        None => {
            return None;
        },
    };
    let mut lists: Vec<TrelloList> = Vec::new();
    let mut i: usize = 0;
    while i < items.len()
        invariant
            i <= items.len(),
            array_items(*reply) == Some(items@),
            all_lists(items@.take(i as int)),
            list_views(lists@) == items@.take(i as int).map_values(
                |item: Value| list_of(json_data(item))->0,
            ),
        decreases items.len() - i,
    {
        let id = string_field(&items[i], "id");
        let name = string_field(&items[i], "name");
        match (id, name) {
            (Some(id), Some(name)) => {
                let ghost before = list_views(lists@);
                let list = TrelloList { id, name };
                lists.push(list);
                proof {
                    assert(list_views(lists@) =~= before.push(list@));
                    assert(items@.take(i + 1).map_values(
                        |item: Value| list_of(json_data(item))->0,
                    ) =~= before.push(list@));
                    assert forall|j: int| 0 <= j < i + 1 implies list_of(
                        json_data(#[trigger] items@.take(i + 1)[j]),
                    ) is Some by {
                        if j < i {
                            assert(items@.take(i as int)[j] == items@[j]);
                        }
                    }
                }
            },
            _ => {
                proof {
                    assert(list_of(json_data(items@[i as int])) is None);
                }
                return None;
            },
        }
        i += 1;
    }
    proof {
        assert(items@.take(items.len() as int) =~= items@);
    }
    Some(lists)
}

impl TrelloClient {
    pub fn new(token: String, api_key: String, default_board: Option<String>) -> (client:
        TrelloClient)
        ensures
            client@ == (TrelloClientView {
                token: token@,
                api_key: api_key@,
                default_board: default_board.deep_view(),
            }),
    {
        TrelloClient { token, api_key, default_board }
    }

    pub fn provider(&self) -> (id: ProviderId)
        ensures
            id == ProviderId::Trello,
    {
        ProviderId::Trello
    }

    /// The board to work on: `override_board` where it is given, else the
    /// default of the adapter.
    pub fn resolve_board(&self, override_board: Option<&String>) -> (r: Result<String, UnifiedError>)
        ensures
            match first_of(override_board.deep_view(), self@.default_board) {
                Some(board) => r matches Ok(found) && found@ == board,
                None => r matches Err(e) && e@ == board_required(),
            },
    {
        match choose_scope(override_board, &self.default_board) {
            Some(board) => Ok(board),
            None => Err(UnifiedError::Configuration("board is required".to_owned())),
        }
    }

    /// Projects a card into the unified record, given the lists of its
    /// board.
    pub fn map_card(&self, card: &Value, lists: &Vec<TrelloList>) -> (issue: UnifiedIssue)
        ensures
            issue@ == trello_issue(*card, list_views(lists@)),
    {
        proof {
            reveal_strlit("");
            assert(""@ =~= Seq::<char>::empty());
        }
        UnifiedIssue {
            id: string_field_or(card, "id", ""),
            title: string_field_or(card, "name", "untitled"),
            state: list_name_for(card, lists),
            url: string_field(card, "url"),
            provider: ProviderId::Trello,
            raw_payload: card.clone(),
        }
    }

    /// Lists the cards of a board.
    ///
    /// Called with no reply, it answers with the request for the cards;
    /// called with that reply, with the request for the lists; called with
    /// both replies, with the cards.
    pub fn list(&self, query: &UnifiedListQuery, replies: &Vec<Value>) -> (r: Result<
        Step<Vec<UnifiedIssue>>,
        UnifiedError,
    >)
        ensures
            list_answer(self@, query.repo.deep_view(), replies@, r),
    {
        if replies.len() < 2 {
            let board = self.resolve_board(query.repo.as_ref())?;
            let collection = if replies.len() == 0 {
                "/cards"
            } else {
                "/lists"
            };
            Ok(
                Step::Send(
                    board_request(
                        board.as_str(),
                        collection,
                        self.api_key.as_str(),
                        self.token.as_str(),
                    ),
                ),
            )
        } else {
            match replies[0].as_array() {
                None => Err(UnifiedError::UnexpectedResponse(render(&replies[0]))),
                Some(cards) => {
                    let lists = match read_lists(&replies[1]) {
                        Some(lists) => lists,
                        None => {
                            return Err(UnifiedError::UnexpectedResponse(render(&replies[1])));
                        },
                    };
                    let ghost known = list_views(lists@);
                    let mut issues: Vec<UnifiedIssue> = Vec::new();
                    let mut i: usize = 0;
                    while i < cards.len()
                        invariant
                            i <= cards.len(),
                            list_views(lists@) == known,
                            issue_views(issues@) == cards@.take(i as int).map_values(
                                |card: Value| trello_issue(card, known),
                            ),
                        decreases cards.len() - i,
                    {
                        let ghost before = issue_views(issues@);
                        issues.push(self.map_card(&cards[i], &lists));
                        proof {
                            let added = trello_issue(cards@[i as int], known);
                            assert(issue_views(issues@) =~= before.push(added));
                        }
                        i += 1;
                    }
                    proof {
                        assert(cards@.take(cards.len() as int) =~= cards@);
                    }
                    Ok(Step::Done(issues))
                },
            }
        }
    }

    /// Creates a card on the first list of a board.
    ///
    /// Called with no reply, it answers with the request for the lists of
    /// the board; called with that reply, with the request that posts the
    /// card; called with both replies, with the record of the new card.
    pub fn create(&self, params: &UnifiedCreateParams, replies: &Vec<Value>) -> (r: Result<
        Step<UnifiedIssue>,
        UnifiedError,
    >)
        ensures
            create_answer(
                self@,
                params.repo.deep_view(),
                params.title@,
                params.body.deep_view(),
                replies@,
                r,
            ),
    {
        if replies.len() == 0 {
            let board = self.resolve_board(params.repo.as_ref())?;
            Ok(
                Step::Send(
                    board_request(
                        board.as_str(),
                        "/lists",
                        self.api_key.as_str(),
                        self.token.as_str(),
                    ),
                ),
            )
        } else if replies.len() == 1 {
            match read_lists(&replies[0]) {
                None => Err(UnifiedError::UnexpectedResponse(render(&replies[0]))),
                Some(lists) => {
                    if lists.len() == 0 {
                        return Err(
                            UnifiedError::Configuration("No lists found on board".to_owned()),
                        );
                    }
                    Ok(
                        Step::Send(
                            new_card_request(
                                self.api_key.as_str(),
                                self.token.as_str(),
                                params.title.as_str(),
                                lists[0].id.as_str(),
                                as_text(&params.body),
                            ),
                        ),
                    )
                },
            }
        } else {
            match read_lists(&replies[0]) {
                None => Err(UnifiedError::UnexpectedResponse(render(&replies[0]))),
                Some(lists) => Ok(Step::Done(self.map_card(&replies[1], &lists))),
            }
        }
    }
}

/// Creation and listing project a card alike: with the same reply that names
/// the lists of the board, the record that `create` answers for a card is the
/// record that `list` answers for a listing of that one card.
pub proof fn lemma_created_like_listed(
    client: TrelloClientView,
    card: Value,
    cards: Value,
    lists: Value,
    params: UnifiedCreateParams,
    query: UnifiedListQuery,
    created: Result<Step<UnifiedIssue>, UnifiedError>,
    listed: Result<Step<Vec<UnifiedIssue>>, UnifiedError>,
)
    requires
        array_items(cards) == Some(seq![card]),
        lists_of(lists) is Some,
        create_answer(
            client,
            params.repo.deep_view(),
            params.title@,
            params.body.deep_view(),
            seq![lists, card],
            created,
        ),
        list_answer(client, query.repo.deep_view(), seq![cards, lists], listed),
    ensures
        created matches Ok(Step::Done(one)) && listed matches Ok(Step::Done(all)) && all@.len() == 1
            && all@[0]@ == one@,
{
    let all = listed->Ok_0->Done_0;
    assert(issue_views(all@).len() == 1);
    assert(issue_views(all@)[0] == trello_issue(card, lists_of(lists)->0));
}

} // verus!
