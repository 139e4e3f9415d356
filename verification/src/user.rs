use vstd::prelude::*;

verus! {

/// The filter of a user who never chose one.
pub const DEFAULT_FILTER: &'static str = "all";

/// What the client is told about its user: names, last filter and roles.
#[derive(Debug)]
pub struct UserState {
    pub username: String,
    pub display_name: String,
    pub filter: String,
    pub roles: Vec<String>,
}

/// A stored row of user settings.
pub struct UserConfig {
    pub username: String,
    pub display_name: String,
    pub last_filter: String,
}

/// The text of a stored row of user settings.
pub struct UserConfigView {
    pub username: Seq<char>,
    pub display_name: Seq<char>,
    pub last_filter: Seq<char>,
}

impl View for UserConfig {
    type V = UserConfigView;

    open spec fn view(&self) -> UserConfigView {
        UserConfigView {
            username: self.username@,
            display_name: self.display_name@,
            last_filter: self.last_filter@,
        }
    }
}

pub open spec fn row_view(stored: Option<UserConfig>) -> Option<UserConfigView> {
    match stored {
        Some(row) => Some(row@),
        None => None,
    }
}

/// The settings that a user's state shows: the stored row, or, for a user
/// without one, the user name as display name and the default filter.
pub open spec fn effective_settings(username: Seq<char>, stored: Option<UserConfigView>) -> UserConfigView {
    match stored {
        Some(row) => row,
        None => UserConfigView {
            username: username,
            display_name: username,
            last_filter: DEFAULT_FILTER@,
        },
    }
}

/// The row after a user sets the filter: an existing row keeps its names,
/// a new row takes the user name as display name.
pub open spec fn with_filter_spec(
    username: Seq<char>,
    stored: Option<UserConfigView>,
    filter: Seq<char>,
) -> UserConfigView {
    match stored {
        Some(row) => UserConfigView { last_filter: filter, ..row },
        None => UserConfigView { username: username, display_name: username, last_filter: filter },
    }
}

/// The row after a user sets the display name: an existing row keeps its
/// filter, a new row takes the default filter.
pub open spec fn with_display_name_spec(
    username: Seq<char>,
    stored: Option<UserConfigView>,
    display_name: Seq<char>,
) -> UserConfigView {
    match stored {
        Some(row) => UserConfigView { display_name: display_name, ..row },
        None => UserConfigView {
            username: username,
            display_name: display_name,
            last_filter: DEFAULT_FILTER@,
        },
    }
}

/// The state of `username`, given the row stored for it (if any) and the
/// roles it holds.
pub fn get_user_state(username: &str, stored: Option<UserConfig>, roles: Vec<String>) -> (res: UserState)
    ensures
        res.username@ == effective_settings(username@, row_view(stored)).username,
        res.display_name@ == effective_settings(username@, row_view(stored)).display_name,
        res.filter@ == effective_settings(username@, row_view(stored)).last_filter,
        res.roles == roles,
{
    match stored {
        Some(row) => UserState {
            username: row.username,
            display_name: row.display_name,
            filter: row.last_filter,
            roles,
        },
        None => UserState {
            username: String::from_str(username),
            display_name: String::from_str(username),
            filter: String::from_str(DEFAULT_FILTER),
            roles,
        },
    }
}

/// The row to store when `username` sets its filter to `new_filter`.
pub fn update_user_filter(username: &str, stored: Option<UserConfig>, new_filter: &str) -> (res: UserConfig)
    ensures
        res@ == with_filter_spec(username@, row_view(stored), new_filter@),
{
    match stored {
        Some(row) => UserConfig {
            username: row.username,
            display_name: row.display_name,
            last_filter: String::from_str(new_filter),
        },
        None => UserConfig {
            username: String::from_str(username),
            display_name: String::from_str(username),
            last_filter: String::from_str(new_filter),
        },
    }
}

/// The row to store when `username` sets its display name to `display_name`.
pub fn update_user_display_name(username: &str, stored: Option<UserConfig>, display_name: &str) -> (res:
    UserConfig)
    ensures
        res@ == with_display_name_spec(username@, row_view(stored), display_name@),
{
    match stored {
        Some(row) => UserConfig {
            username: row.username,
            display_name: String::from_str(display_name),
            last_filter: row.last_filter,
        },
        None => UserConfig {
            username: String::from_str(username),
            display_name: String::from_str(display_name),
            last_filter: String::from_str(DEFAULT_FILTER),
        },
    }
}

/// After a user sets its filter, its state shows that filter and the same
/// names as before.
pub proof fn lemma_filter_read_back(username: Seq<char>, stored: Option<UserConfigView>, filter: Seq<char>)
    ensures
        effective_settings(username, Some(with_filter_spec(username, stored, filter))).last_filter
            == filter,
        effective_settings(username, Some(with_filter_spec(username, stored, filter))).display_name
            == effective_settings(username, stored).display_name,
        effective_settings(username, Some(with_filter_spec(username, stored, filter))).username
            == effective_settings(username, stored).username,
{
}

/// After a user sets its display name, its state shows that name and the
/// same filter as before.
pub proof fn lemma_display_name_read_back(
    username: Seq<char>,
    stored: Option<UserConfigView>,
    display_name: Seq<char>,
)
    ensures
        effective_settings(
            username,
            Some(with_display_name_spec(username, stored, display_name)),
        ).display_name == display_name,
        effective_settings(
            username,
            Some(with_display_name_spec(username, stored, display_name)),
        ).last_filter == effective_settings(username, stored).last_filter,
        effective_settings(
            username,
            Some(with_display_name_spec(username, stored, display_name)),
        ).username == effective_settings(username, stored).username,
{
}

/// Setting the filter and setting the display name give the same row in
/// either order.
pub proof fn lemma_settings_commute(
    username: Seq<char>,
    stored: Option<UserConfigView>,
    filter: Seq<char>,
    display_name: Seq<char>,
)
    ensures
        with_display_name_spec(
            username,
            Some(with_filter_spec(username, stored, filter)),
            display_name,
        ) == with_filter_spec(
            username,
            Some(with_display_name_spec(username, stored, display_name)),
            filter,
        ),
{
}

/// A user without stored settings is shown under its own name, with the
/// filter `all`; the first row stored for it, whichever setting it changes,
/// keeps its name and fills the other setting the same way.
pub proof fn lemma_new_user_defaults(username: Seq<char>, filter: Seq<char>, display_name: Seq<char>)
    ensures
        effective_settings(username, None).username == username,
        effective_settings(username, None).display_name == username,
        effective_settings(username, None).last_filter == seq!['a', 'l', 'l'],
        with_filter_spec(username, None, filter).username == username,
        with_filter_spec(username, None, filter).display_name == username,
        with_filter_spec(username, None, filter).last_filter == filter,
        with_display_name_spec(username, None, display_name).username == username,
        with_display_name_spec(username, None, display_name).display_name == display_name,
        with_display_name_spec(username, None, display_name).last_filter == seq!['a', 'l', 'l'],
{
    reveal_strlit("all");
}

/// A stored row is shown as it is, and an update changes only its own
/// setting of that row.
pub proof fn lemma_stored_settings_kept(
    username: Seq<char>,
    row: UserConfigView,
    filter: Seq<char>,
    display_name: Seq<char>,
)
    ensures
        effective_settings(username, Some(row)) == row,
        with_filter_spec(username, Some(row), filter) == (UserConfigView {
            username: row.username,
            display_name: row.display_name,
            last_filter: filter,
        }),
        with_display_name_spec(username, Some(row), display_name) == (UserConfigView {
            username: row.username,
            display_name: display_name,
            last_filter: row.last_filter,
        }),
{
}

} // verus!
