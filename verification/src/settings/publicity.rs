//! A server's settings about who can see and join it.
use crate::error::SettingsError;
use crate::settings::autosave::{flag_to_store, flag_value};
use crate::settings::game_format::{
    GameFormatConversion, GameFormatView, ServerSettingsGameFormat, VisibilityGameFormat,
};
use crate::settings::limit::{limit_of, limit_value, Limit};
use crate::settings::store_format::{GameSettings, StoreFormatConversion, StoreView};
use vstd::prelude::*;

verus! {

/// The credential with which a public server logs in to factorio.com.
#[derive(Clone, Debug)]
pub enum Credential {
    /// The `password` setting.
    Password(String),
    /// The `token` setting.
    Token(String),
}

/// The meaning of a [`Credential`].
pub enum CredentialView {
    Password(Seq<char>),
    Token(Seq<char>),
}

impl View for Credential {
    type V = CredentialView;

    open spec fn view(&self) -> CredentialView {
        match self {
            Credential::Password(p) => CredentialView::Password(p@),
            Credential::Token(t) => CredentialView::Token(t@),
        }
    }
}

/// The factorio.com login of a server that is publicly visible.
#[derive(Clone, Debug)]
pub struct PublicVisibility {
    /// The `username` setting.
    pub username: String,
    /// The `password` or `token` setting.
    pub credential: Credential,
}

/// The meaning of a [`PublicVisibility`].
pub struct PublicVisibilityView {
    pub username: Seq<char>,
    pub credential: CredentialView,
}

impl View for PublicVisibility {
    type V = PublicVisibilityView;

    open spec fn view(&self) -> PublicVisibilityView {
        PublicVisibilityView { username: self.username@, credential: self.credential@ }
    }
}

/// A server's player limit settings.
#[derive(Clone, Copy, Debug, PartialEq, Eq, Structural)]
pub struct PlayerLimit {
    /// The `max_players` setting. Defaults to no limit.
    pub max: Limit,
    /// The `ignore_player_limit_for_returning_players` setting. Defaults to `false`.
    pub ignore_for_returning: bool,
    /// The `afk_autokick_interval` setting. Defaults to a limit of 5.
    pub autokick: Limit,
}

/// A server's publicity settings.
#[derive(Debug)]
pub struct Publicity {
    /// The login with which the server is publicly visible, or `None` when it is not
    /// (`visibility.public`). Defaults to an empty username and password.
    pub public: Option<PublicVisibility>,
    /// The `visibility.lan` setting. Defaults to `true`.
    pub lan: bool,
    /// The `require_user_verification` setting. Defaults to `true`.
    pub require_user_verification: bool,
    /// The player limit settings.
    pub player_limit: PlayerLimit,
    /// The `game_password` setting. Defaults to empty.
    pub password: String,
}

/// The meaning of a [`Publicity`].
pub struct PublicityView {
    pub public: Option<PublicVisibilityView>,
    pub lan: bool,
    pub require_user_verification: bool,
    pub player_limit: PlayerLimit,
    pub password: Seq<char>,
}

impl View for Publicity {
    type V = PublicityView;

    open spec fn view(&self) -> PublicityView {
        PublicityView {
            public: match self.public {
                Some(p) => Some(p@),
                None => None,
            },
            lan: self.lan,
            require_user_verification: self.require_user_verification,
            player_limit: self.player_limit,
            password: self.password@,
        }
    }
}

impl Default for PlayerLimit {
    fn default() -> (r: Self)
        ensures
            r == (PlayerLimit {
                max: Limit::Unlimited,
                ignore_for_returning: false,
                autokick: Limit::Limited(5),
            }),
    {
        PlayerLimit { max: Limit::Unlimited, ignore_for_returning: false, autokick: Limit::Limited(5) }
    }
}

impl Default for PublicVisibility {
    fn default() -> (r: Self)
        ensures
            r@ == (PublicVisibilityView {
                username: Seq::empty(),
                credential: CredentialView::Password(Seq::empty()),
            }),
    {
        PublicVisibility { username: String::new(), credential: Credential::Password(String::new()) }
    }
}

impl Default for Publicity {
    fn default() -> (r: Self)
        ensures
            r@ == (PublicityView {
                public: Some(
                    PublicVisibilityView {
                        username: Seq::empty(),
                        credential: CredentialView::Password(Seq::empty()),
                    },
                ),
                lan: true,
                require_user_verification: true,
                player_limit: PlayerLimit {
                    max: Limit::Unlimited,
                    ignore_for_returning: false,
                    autokick: Limit::Limited(5),
                },
                password: Seq::empty(),
            }),
    {
        Publicity {
            public: Some(PublicVisibility::default()),
            lan: true,
            require_user_verification: true,
            player_limit: PlayerLimit::default(),
            password: String::new(),
        }
    }
}

/// The credential read from a password and a token: the token where it is not empty, else the
/// password.
pub open spec fn credential_of(password: Seq<char>, token: Seq<char>) -> CredentialView {
    if token.len() == 0 {
        CredentialView::Password(password)
    } else {
        CredentialView::Token(token)
    }
}

/// The credential read from a password and a token.
fn read_credential(password: &String, token: &String) -> (r: Credential)
    ensures
        r@ == credential_of(password@, token@),
{
    if token.as_str().is_empty() {
        Credential::Password(password.clone())
    } else {
        Credential::Token(token.clone())
    }
}

/// The publicity settings that a `server-settings.json` structure holds.
pub open spec fn publicity_of_game_format(g: GameFormatView) -> PublicityView {
    PublicityView {
        public: if g.visibility.public {
            Some(
                PublicVisibilityView {
                    username: g.username,
                    credential: credential_of(g.password, g.token),
                },
            )
        } else {
            None
        },
        lan: g.visibility.lan,
        require_user_verification: g.require_user_verification,
        player_limit: PlayerLimit {
            max: limit_of(g.max_players),
            ignore_for_returning: g.ignore_player_limit_for_returning_players,
            autokick: limit_of(g.afk_autokick_interval),
        },
        password: g.game_password,
    }
}

/// A `server-settings.json` structure with the given publicity settings written into it; the
/// login fields are written only for a public server, and only the field of its credential.
pub open spec fn publicity_into_game_format(p: PublicityView, g: GameFormatView) -> GameFormatView {
    let with_login = match p.public {
        Some(v) => match v.credential {
            CredentialView::Password(pw) => GameFormatView { username: v.username, password: pw, ..g },
            CredentialView::Token(t) => GameFormatView { username: v.username, token: t, ..g },
        },
        None => g,
    };
    GameFormatView {
        visibility: VisibilityGameFormat { public: p.public is Some, lan: p.lan },
        require_user_verification: p.require_user_verification,
        max_players: limit_value(p.player_limit.max),
        ignore_player_limit_for_returning_players: p.player_limit.ignore_for_returning,
        afk_autokick_interval: limit_value(p.player_limit.autokick),
        game_password: p.password,
        ..with_login
    }
}

/// The publicity settings that a stored game's settings hold.
pub open spec fn publicity_of_store_format(s: StoreView) -> PublicityView {
    PublicityView {
        public: if s.public_visibility == 0 {
            None
        } else {
            Some(
                PublicVisibilityView {
                    username: s.username,
                    credential: credential_of(s.password, s.token),
                },
            )
        },
        lan: s.lan_visibility != 0,
        require_user_verification: s.require_user_verification != 0,
        player_limit: PlayerLimit {
            max: limit_of(s.max_players as u64),
            ignore_for_returning: s.ignore_player_limit_for_returning_players != 0,
            autokick: limit_of(s.afk_autokick_interval as u64),
        },
        password: s.game_password,
    }
}

/// A stored game's settings with the given publicity settings written into them; the login
/// columns are written only for a public server, and only the column of its credential.
pub open spec fn publicity_into_store_format(p: PublicityView, s: StoreView) -> StoreView {
    let with_login = match p.public {
        Some(v) => match v.credential {
            CredentialView::Password(pw) => StoreView { username: v.username, password: pw, ..s },
            CredentialView::Token(t) => StoreView { username: v.username, token: t, ..s },
        },
        None => s,
    };
    StoreView {
        public_visibility: flag_value(p.public is Some),
        lan_visibility: flag_value(p.lan),
        require_user_verification: flag_value(p.require_user_verification),
        max_players: limit_value(p.player_limit.max) as i64,
        ignore_player_limit_for_returning_players: flag_value(p.player_limit.ignore_for_returning),
        afk_autokick_interval: limit_value(p.player_limit.autokick) as i64,
        game_password: p.password,
        ..with_login
    }
}

impl GameFormatConversion for Publicity {
    /// Reads the publicity settings of a `server-settings.json` structure; this never fails.
    fn from_game_format(game_format: &ServerSettingsGameFormat) -> (r: Result<Self, SettingsError>)
        ensures
            r matches Ok(p) && p@ == publicity_of_game_format(game_format@),
    {
        Ok(
            Publicity {
                public: if game_format.visibility.public {
                    Some(
                        PublicVisibility {
                            username: game_format.username.clone(),
                            credential: read_credential(&game_format.password, &game_format.token),
                        },
                    )
                } else {
                    None
                },
                lan: game_format.visibility.lan,
                require_user_verification: game_format.require_user_verification,
                player_limit: PlayerLimit {
                    max: Limit::from_value(game_format.max_players),
                    ignore_for_returning: game_format.ignore_player_limit_for_returning_players,
                    autokick: Limit::from_value(game_format.afk_autokick_interval),
                },
                password: game_format.game_password.clone(),
            }
        )
    }

    /// Writes these settings into a `server-settings.json` structure; this never fails.
    fn to_game_format(&self, game_format: &mut ServerSettingsGameFormat) -> (r: Result<
        (),
        SettingsError,
    >)
        ensures
            r is Ok,
            final(game_format)@ == publicity_into_game_format(self@, old(game_format)@),
    {
        game_format.visibility.public = self.public.is_some();
        game_format.visibility.lan = self.lan;
        match &self.public {
            Some(public) => {
                game_format.username = public.username.clone();
                match &public.credential {
                    Credential::Password(password) => game_format.password = password.clone(),
                    Credential::Token(token) => game_format.token = token.clone(),
                }
            },
            None => {},
        }
        game_format.require_user_verification = self.require_user_verification;
        game_format.max_players = self.player_limit.max.value();
        game_format.ignore_player_limit_for_returning_players =
            self.player_limit.ignore_for_returning;
        game_format.afk_autokick_interval = self.player_limit.autokick.value();
        game_format.game_password = self.password.clone();
        Ok(())
    }
}

impl StoreFormatConversion for Publicity {
    /// Reads the publicity settings of a stored game's settings; this never fails.
    fn from_store_format(store_format: &GameSettings) -> (r: Result<Self, SettingsError>)
        ensures
            r matches Ok(p) && p@ == publicity_of_store_format(store_format@),
    {
        Ok(
            Publicity {
                public: if store_format.public_visibility == 0 {
                    None
                } else {
                    Some(
                        PublicVisibility {
                            username: store_format.username.clone(),
                            credential: read_credential(&store_format.password, &store_format.token),
                        },
                    )
                },
                lan: store_format.lan_visibility != 0,
                require_user_verification: store_format.require_user_verification != 0,
                player_limit: PlayerLimit {
                    max: Limit::from_value(store_format.max_players as u64),
                    ignore_for_returning: store_format.ignore_player_limit_for_returning_players != 0,
                    autokick: Limit::from_value(store_format.afk_autokick_interval as u64),
                },
                password: store_format.game_password.clone(),
            }
        )
    }

    /// Writes these settings into a stored game's settings; this never fails.
    fn to_store_format(&self, store_format: &mut GameSettings) -> (r: Result<(), SettingsError>)
        ensures
            r is Ok,
            final(store_format)@ == publicity_into_store_format(self@, old(store_format)@),
    {
        store_format.public_visibility = flag_to_store(self.public.is_some());
        store_format.lan_visibility = flag_to_store(self.lan);
        match &self.public {
            Some(public) => {
                store_format.username = public.username.clone();
                match &public.credential {
                    Credential::Password(password) => store_format.password = password.clone(),
                    Credential::Token(token) => store_format.token = token.clone(),
                }
            },
            None => {},
        }
        store_format.require_user_verification = flag_to_store(self.require_user_verification);
        store_format.max_players = self.player_limit.max.value() as i64;
        store_format.ignore_player_limit_for_returning_players = flag_to_store(
            self.player_limit.ignore_for_returning,
        );
        store_format.afk_autokick_interval = self.player_limit.autokick.value() as i64;
        store_format.game_password = self.password.clone();
        Ok(())
    }
}

} // verus!
