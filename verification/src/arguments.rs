//! The command line of the game: argument templates selected by their rules
//! and filled in with launch values, the class path, and the whole launch.

use vstd::prelude::*;
use crate::manifest::{Argument, ArgumentValue, LibraryInfo, MinecraftManifest};
use crate::paths::{concatenated, is_windows, join_path, join_strings, joined_path, joined_with, windows_host};
use crate::rules::{
    compatible, context_for, context_on, is_compatible, no_features, ContextView, HostInfo,
    LaunchFeatures, Rules,
};
use crate::text::{
    replace_all, replaced, lemma_replaced_without_lead_char, lemma_replaced_whole,
    lemma_replaced_other_placeholder, lemma_replaced_no_dollar, is_placeholder, no_dollar,
};

verus! {

/// The values that fill the placeholders of the game arguments.
pub struct GameInfo<'a> {
    pub player_name: &'a str,
    pub version_name: &'a str,
    pub game_directory: &'a str,
    pub assets_root: &'a str,
    pub assets_index_name: &'a str,
    pub uuid: &'a str,
    pub access_token: &'a str,
    pub client_id: &'a str,
    pub xuid: &'a str,
    pub version_type: &'a str,
    pub resolution_width: &'a str,
    pub resolution_height: &'a str,
    pub quick_play_path: &'a str,
    pub quick_play_singleplayer: &'a str,
    pub quick_play_multiplayer: &'a str,
    pub quick_play_realms: &'a str,
}

/// The abstract game values.
pub struct GameInfoView {
    pub player_name: Seq<char>,
    pub version_name: Seq<char>,
    pub game_directory: Seq<char>,
    pub assets_root: Seq<char>,
    pub assets_index_name: Seq<char>,
    pub uuid: Seq<char>,
    pub access_token: Seq<char>,
    pub client_id: Seq<char>,
    pub xuid: Seq<char>,
    pub version_type: Seq<char>,
    pub resolution_width: Seq<char>,
    pub resolution_height: Seq<char>,
    pub quick_play_path: Seq<char>,
    pub quick_play_singleplayer: Seq<char>,
    pub quick_play_multiplayer: Seq<char>,
    pub quick_play_realms: Seq<char>,
}

impl<'a> View for GameInfo<'a> {
    type V = GameInfoView;

    open spec fn view(&self) -> GameInfoView {
        GameInfoView {
            player_name: self.player_name@,
            version_name: self.version_name@,
            game_directory: self.game_directory@,
            assets_root: self.assets_root@,
            assets_index_name: self.assets_index_name@,
            uuid: self.uuid@,
            access_token: self.access_token@,
            client_id: self.client_id@,
            xuid: self.xuid@,
            version_type: self.version_type@,
            resolution_width: self.resolution_width@,
            resolution_height: self.resolution_height@,
            quick_play_path: self.quick_play_path@,
            quick_play_singleplayer: self.quick_play_singleplayer@,
            quick_play_multiplayer: self.quick_play_multiplayer@,
            quick_play_realms: self.quick_play_realms@,
        }
    }
}

/// A game argument template with its placeholders filled in from `g`, one
/// placeholder after the other in a fixed order.
pub open spec fn game_substituted(s: Seq<char>, g: GameInfoView) -> Seq<char> {
    let s1 = replaced(s, "${auth_player_name}"@, g.player_name);
    let s2 = replaced(s1, "${version_name}"@, g.version_name);
    let s3 = replaced(s2, "${game_directory}"@, g.game_directory);
    let s4 = replaced(s3, "${assets_root}"@, g.assets_root);
    let s5 = replaced(s4, "${assets_index_name}"@, g.assets_index_name);
    let s6 = replaced(s5, "${auth_uuid}"@, g.uuid);
    let s7 = replaced(s6, "${auth_access_token}"@, g.access_token);
    let s8 = replaced(s7, "${clientid}"@, g.client_id);
    let s9 = replaced(s8, "${auth_xuid}"@, g.xuid);
    let s10 = replaced(s9, "${version_type}"@, g.version_type);
    let s11 = replaced(s10, "${resolution_width}"@, g.resolution_width);
    let s12 = replaced(s11, "${resolution_height}"@, g.resolution_height);
    let s13 = replaced(s12, "${quickPlayPath}"@, g.quick_play_path);
    let s14 = replaced(s13, "${quickPlaySingleplayer}"@, g.quick_play_singleplayer);
    let s15 = replaced(s14, "${quickPlayMultiplayer}"@, g.quick_play_multiplayer);
    replaced(s15, "${quickPlayRealms}"@, g.quick_play_realms)
}

/// A game argument without any `$` is passed on unchanged, whatever the
/// launch values are.
pub proof fn lemma_game_argument_without_placeholder(s: Seq<char>, g: GameInfoView)
    requires
        forall|i: int| 0 <= i < s.len() ==> s[i] != '$',
    ensures
        game_substituted(s, g) == s,
{
    reveal_strlit("${auth_player_name}");
    reveal_strlit("${version_name}");
    reveal_strlit("${game_directory}");
    reveal_strlit("${assets_root}");
    reveal_strlit("${assets_index_name}");
    reveal_strlit("${auth_uuid}");
    reveal_strlit("${auth_access_token}");
    reveal_strlit("${clientid}");
    reveal_strlit("${auth_xuid}");
    reveal_strlit("${version_type}");
    reveal_strlit("${resolution_width}");
    reveal_strlit("${resolution_height}");
    reveal_strlit("${quickPlayPath}");
    reveal_strlit("${quickPlaySingleplayer}");
    reveal_strlit("${quickPlayMultiplayer}");
    reveal_strlit("${quickPlayRealms}");
    lemma_replaced_without_lead_char(s, "${auth_player_name}"@, g.player_name);
    lemma_replaced_without_lead_char(s, "${version_name}"@, g.version_name);
    lemma_replaced_without_lead_char(s, "${game_directory}"@, g.game_directory);
    lemma_replaced_without_lead_char(s, "${assets_root}"@, g.assets_root);
    lemma_replaced_without_lead_char(s, "${assets_index_name}"@, g.assets_index_name);
    lemma_replaced_without_lead_char(s, "${auth_uuid}"@, g.uuid);
    lemma_replaced_without_lead_char(s, "${auth_access_token}"@, g.access_token);
    lemma_replaced_without_lead_char(s, "${clientid}"@, g.client_id);
    lemma_replaced_without_lead_char(s, "${auth_xuid}"@, g.xuid);
    lemma_replaced_without_lead_char(s, "${version_type}"@, g.version_type);
    lemma_replaced_without_lead_char(s, "${resolution_width}"@, g.resolution_width);
    lemma_replaced_without_lead_char(s, "${resolution_height}"@, g.resolution_height);
    lemma_replaced_without_lead_char(s, "${quickPlayPath}"@, g.quick_play_path);
    lemma_replaced_without_lead_char(s, "${quickPlaySingleplayer}"@, g.quick_play_singleplayer);
    lemma_replaced_without_lead_char(s, "${quickPlayMultiplayer}"@, g.quick_play_multiplayer);
    lemma_replaced_without_lead_char(s, "${quickPlayRealms}"@, g.quick_play_realms);
}

/// Filling a game argument puts each launch value where its placeholder
/// stands: a template that is exactly one placeholder becomes that
/// placeholder's value (when the value itself holds no `$`).
pub proof fn lemma_game_placeholders_filled(g: GameInfoView)
    ensures
        no_dollar(g.player_name) ==> game_substituted("${auth_player_name}"@, g) == g.player_name,
        no_dollar(g.version_name) ==> game_substituted("${version_name}"@, g) == g.version_name,
        no_dollar(g.game_directory) ==> game_substituted("${game_directory}"@, g) == g.game_directory,
        no_dollar(g.assets_root) ==> game_substituted("${assets_root}"@, g) == g.assets_root,
        no_dollar(g.assets_index_name) ==> game_substituted("${assets_index_name}"@, g) == g.assets_index_name,
        no_dollar(g.uuid) ==> game_substituted("${auth_uuid}"@, g) == g.uuid,
        no_dollar(g.access_token) ==> game_substituted("${auth_access_token}"@, g) == g.access_token,
        no_dollar(g.client_id) ==> game_substituted("${clientid}"@, g) == g.client_id,
        no_dollar(g.xuid) ==> game_substituted("${auth_xuid}"@, g) == g.xuid,
        no_dollar(g.version_type) ==> game_substituted("${version_type}"@, g) == g.version_type,
        no_dollar(g.resolution_width) ==> game_substituted("${resolution_width}"@, g) == g.resolution_width,
        no_dollar(g.resolution_height) ==> game_substituted("${resolution_height}"@, g) == g.resolution_height,
        no_dollar(g.quick_play_path) ==> game_substituted("${quickPlayPath}"@, g) == g.quick_play_path,
        no_dollar(g.quick_play_singleplayer) ==> game_substituted("${quickPlaySingleplayer}"@, g) == g.quick_play_singleplayer,
        no_dollar(g.quick_play_multiplayer) ==> game_substituted("${quickPlayMultiplayer}"@, g) == g.quick_play_multiplayer,
        no_dollar(g.quick_play_realms) ==> game_substituted("${quickPlayRealms}"@, g) == g.quick_play_realms,
{
    lemma_game_placeholder_filled_0(g);
    lemma_game_placeholder_filled_1(g);
    lemma_game_placeholder_filled_2(g);
    lemma_game_placeholder_filled_3(g);
    lemma_game_placeholder_filled_4(g);
    lemma_game_placeholder_filled_5(g);
    lemma_game_placeholder_filled_6(g);
    lemma_game_placeholder_filled_7(g);
    lemma_game_placeholder_filled_8(g);
    lemma_game_placeholder_filled_9(g);
    lemma_game_placeholder_filled_10(g);
    lemma_game_placeholder_filled_11(g);
    lemma_game_placeholder_filled_12(g);
    lemma_game_placeholder_filled_13(g);
    lemma_game_placeholder_filled_14(g);
    lemma_game_placeholder_filled_15(g);
}

proof fn lemma_game_placeholder_filled_0(g: GameInfoView)
    ensures
        no_dollar(g.player_name) ==> game_substituted("${auth_player_name}"@, g) == g.player_name,
{
    reveal_strlit("${auth_player_name}");
    reveal_strlit("${version_name}");
    reveal_strlit("${game_directory}");
    reveal_strlit("${assets_root}");
    reveal_strlit("${assets_index_name}");
    reveal_strlit("${auth_uuid}");
    reveal_strlit("${auth_access_token}");
    reveal_strlit("${clientid}");
    reveal_strlit("${auth_xuid}");
    reveal_strlit("${version_type}");
    reveal_strlit("${resolution_width}");
    reveal_strlit("${resolution_height}");
    reveal_strlit("${quickPlayPath}");
    reveal_strlit("${quickPlaySingleplayer}");
    reveal_strlit("${quickPlayMultiplayer}");
    reveal_strlit("${quickPlayRealms}");
    assert(is_placeholder("${auth_player_name}"@));
    assert(is_placeholder("${version_name}"@));
    assert(is_placeholder("${game_directory}"@));
    assert(is_placeholder("${assets_root}"@));
    assert(is_placeholder("${assets_index_name}"@));
    assert(is_placeholder("${auth_uuid}"@));
    assert(is_placeholder("${auth_access_token}"@));
    assert(is_placeholder("${clientid}"@));
    assert(is_placeholder("${auth_xuid}"@));
    assert(is_placeholder("${version_type}"@));
    assert(is_placeholder("${resolution_width}"@));
    assert(is_placeholder("${resolution_height}"@));
    assert(is_placeholder("${quickPlayPath}"@));
    assert(is_placeholder("${quickPlaySingleplayer}"@));
    assert(is_placeholder("${quickPlayMultiplayer}"@));
    assert(is_placeholder("${quickPlayRealms}"@));
    if no_dollar(g.player_name) {
        lemma_replaced_whole("${auth_player_name}"@, g.player_name);
        lemma_replaced_no_dollar(g.player_name, "${version_name}"@, g.version_name);
        lemma_replaced_no_dollar(g.player_name, "${game_directory}"@, g.game_directory);
        lemma_replaced_no_dollar(g.player_name, "${assets_root}"@, g.assets_root);
        lemma_replaced_no_dollar(g.player_name, "${assets_index_name}"@, g.assets_index_name);
        lemma_replaced_no_dollar(g.player_name, "${auth_uuid}"@, g.uuid);
        lemma_replaced_no_dollar(g.player_name, "${auth_access_token}"@, g.access_token);
        lemma_replaced_no_dollar(g.player_name, "${clientid}"@, g.client_id);
        lemma_replaced_no_dollar(g.player_name, "${auth_xuid}"@, g.xuid);
        lemma_replaced_no_dollar(g.player_name, "${version_type}"@, g.version_type);
        lemma_replaced_no_dollar(g.player_name, "${resolution_width}"@, g.resolution_width);
        lemma_replaced_no_dollar(g.player_name, "${resolution_height}"@, g.resolution_height);
        lemma_replaced_no_dollar(g.player_name, "${quickPlayPath}"@, g.quick_play_path);
        lemma_replaced_no_dollar(g.player_name, "${quickPlaySingleplayer}"@, g.quick_play_singleplayer);
        lemma_replaced_no_dollar(g.player_name, "${quickPlayMultiplayer}"@, g.quick_play_multiplayer);
        lemma_replaced_no_dollar(g.player_name, "${quickPlayRealms}"@, g.quick_play_realms);
    }
}

proof fn lemma_game_placeholder_filled_1(g: GameInfoView)
    ensures
        no_dollar(g.version_name) ==> game_substituted("${version_name}"@, g) == g.version_name,
{
    reveal_strlit("${auth_player_name}");
    reveal_strlit("${version_name}");
    reveal_strlit("${game_directory}");
    reveal_strlit("${assets_root}");
    reveal_strlit("${assets_index_name}");
    reveal_strlit("${auth_uuid}");
    reveal_strlit("${auth_access_token}");
    reveal_strlit("${clientid}");
    reveal_strlit("${auth_xuid}");
    reveal_strlit("${version_type}");
    reveal_strlit("${resolution_width}");
    reveal_strlit("${resolution_height}");
    reveal_strlit("${quickPlayPath}");
    reveal_strlit("${quickPlaySingleplayer}");
    reveal_strlit("${quickPlayMultiplayer}");
    reveal_strlit("${quickPlayRealms}");
    assert(is_placeholder("${auth_player_name}"@));
    assert(is_placeholder("${version_name}"@));
    assert(is_placeholder("${game_directory}"@));
    assert(is_placeholder("${assets_root}"@));
    assert(is_placeholder("${assets_index_name}"@));
    assert(is_placeholder("${auth_uuid}"@));
    assert(is_placeholder("${auth_access_token}"@));
    assert(is_placeholder("${clientid}"@));
    assert(is_placeholder("${auth_xuid}"@));
    assert(is_placeholder("${version_type}"@));
    assert(is_placeholder("${resolution_width}"@));
    assert(is_placeholder("${resolution_height}"@));
    assert(is_placeholder("${quickPlayPath}"@));
    assert(is_placeholder("${quickPlaySingleplayer}"@));
    assert(is_placeholder("${quickPlayMultiplayer}"@));
    assert(is_placeholder("${quickPlayRealms}"@));
    if no_dollar(g.version_name) {
        lemma_replaced_other_placeholder("${version_name}"@, "${auth_player_name}"@, g.player_name);
        lemma_replaced_whole("${version_name}"@, g.version_name);
        lemma_replaced_no_dollar(g.version_name, "${game_directory}"@, g.game_directory);
        lemma_replaced_no_dollar(g.version_name, "${assets_root}"@, g.assets_root);
        lemma_replaced_no_dollar(g.version_name, "${assets_index_name}"@, g.assets_index_name);
        lemma_replaced_no_dollar(g.version_name, "${auth_uuid}"@, g.uuid);
        lemma_replaced_no_dollar(g.version_name, "${auth_access_token}"@, g.access_token);
        lemma_replaced_no_dollar(g.version_name, "${clientid}"@, g.client_id);
        lemma_replaced_no_dollar(g.version_name, "${auth_xuid}"@, g.xuid);
        lemma_replaced_no_dollar(g.version_name, "${version_type}"@, g.version_type);
        lemma_replaced_no_dollar(g.version_name, "${resolution_width}"@, g.resolution_width);
        lemma_replaced_no_dollar(g.version_name, "${resolution_height}"@, g.resolution_height);
        lemma_replaced_no_dollar(g.version_name, "${quickPlayPath}"@, g.quick_play_path);
        lemma_replaced_no_dollar(g.version_name, "${quickPlaySingleplayer}"@, g.quick_play_singleplayer);
        lemma_replaced_no_dollar(g.version_name, "${quickPlayMultiplayer}"@, g.quick_play_multiplayer);
        lemma_replaced_no_dollar(g.version_name, "${quickPlayRealms}"@, g.quick_play_realms);
    }
}

proof fn lemma_game_placeholder_filled_2(g: GameInfoView)
    ensures
        no_dollar(g.game_directory) ==> game_substituted("${game_directory}"@, g) == g.game_directory,
{
    reveal_strlit("${auth_player_name}");
    reveal_strlit("${version_name}");
    reveal_strlit("${game_directory}");
    reveal_strlit("${assets_root}");
    reveal_strlit("${assets_index_name}");
    reveal_strlit("${auth_uuid}");
    reveal_strlit("${auth_access_token}");
    reveal_strlit("${clientid}");
    reveal_strlit("${auth_xuid}");
    reveal_strlit("${version_type}");
    reveal_strlit("${resolution_width}");
    reveal_strlit("${resolution_height}");
    reveal_strlit("${quickPlayPath}");
    reveal_strlit("${quickPlaySingleplayer}");
    reveal_strlit("${quickPlayMultiplayer}");
    reveal_strlit("${quickPlayRealms}");
    assert(is_placeholder("${auth_player_name}"@));
    assert(is_placeholder("${version_name}"@));
    assert(is_placeholder("${game_directory}"@));
    assert(is_placeholder("${assets_root}"@));
    assert(is_placeholder("${assets_index_name}"@));
    assert(is_placeholder("${auth_uuid}"@));
    assert(is_placeholder("${auth_access_token}"@));
    assert(is_placeholder("${clientid}"@));
    assert(is_placeholder("${auth_xuid}"@));
    assert(is_placeholder("${version_type}"@));
    assert(is_placeholder("${resolution_width}"@));
    assert(is_placeholder("${resolution_height}"@));
    assert(is_placeholder("${quickPlayPath}"@));
    assert(is_placeholder("${quickPlaySingleplayer}"@));
    assert(is_placeholder("${quickPlayMultiplayer}"@));
    assert(is_placeholder("${quickPlayRealms}"@));
    if no_dollar(g.game_directory) {
        lemma_replaced_other_placeholder("${game_directory}"@, "${auth_player_name}"@, g.player_name);
        lemma_replaced_other_placeholder("${game_directory}"@, "${version_name}"@, g.version_name);
        lemma_replaced_whole("${game_directory}"@, g.game_directory);
        lemma_replaced_no_dollar(g.game_directory, "${assets_root}"@, g.assets_root);
        lemma_replaced_no_dollar(g.game_directory, "${assets_index_name}"@, g.assets_index_name);
        lemma_replaced_no_dollar(g.game_directory, "${auth_uuid}"@, g.uuid);
        lemma_replaced_no_dollar(g.game_directory, "${auth_access_token}"@, g.access_token);
        lemma_replaced_no_dollar(g.game_directory, "${clientid}"@, g.client_id);
        lemma_replaced_no_dollar(g.game_directory, "${auth_xuid}"@, g.xuid);
        lemma_replaced_no_dollar(g.game_directory, "${version_type}"@, g.version_type);
        lemma_replaced_no_dollar(g.game_directory, "${resolution_width}"@, g.resolution_width);
        lemma_replaced_no_dollar(g.game_directory, "${resolution_height}"@, g.resolution_height);
        lemma_replaced_no_dollar(g.game_directory, "${quickPlayPath}"@, g.quick_play_path);
        lemma_replaced_no_dollar(g.game_directory, "${quickPlaySingleplayer}"@, g.quick_play_singleplayer);
        lemma_replaced_no_dollar(g.game_directory, "${quickPlayMultiplayer}"@, g.quick_play_multiplayer);
        lemma_replaced_no_dollar(g.game_directory, "${quickPlayRealms}"@, g.quick_play_realms);
    }
}

proof fn lemma_game_placeholder_filled_3(g: GameInfoView)
    ensures
        no_dollar(g.assets_root) ==> game_substituted("${assets_root}"@, g) == g.assets_root,
{
    reveal_strlit("${auth_player_name}");
    reveal_strlit("${version_name}");
    reveal_strlit("${game_directory}");
    reveal_strlit("${assets_root}");
    reveal_strlit("${assets_index_name}");
    reveal_strlit("${auth_uuid}");
    reveal_strlit("${auth_access_token}");
    reveal_strlit("${clientid}");
    reveal_strlit("${auth_xuid}");
    reveal_strlit("${version_type}");
    reveal_strlit("${resolution_width}");
    reveal_strlit("${resolution_height}");
    reveal_strlit("${quickPlayPath}");
    reveal_strlit("${quickPlaySingleplayer}");
    reveal_strlit("${quickPlayMultiplayer}");
    reveal_strlit("${quickPlayRealms}");
    assert(is_placeholder("${auth_player_name}"@));
    assert(is_placeholder("${version_name}"@));
    assert(is_placeholder("${game_directory}"@));
    assert(is_placeholder("${assets_root}"@));
    assert(is_placeholder("${assets_index_name}"@));
    assert(is_placeholder("${auth_uuid}"@));
    assert(is_placeholder("${auth_access_token}"@));
    assert(is_placeholder("${clientid}"@));
    assert(is_placeholder("${auth_xuid}"@));
    assert(is_placeholder("${version_type}"@));
    assert(is_placeholder("${resolution_width}"@));
    assert(is_placeholder("${resolution_height}"@));
    assert(is_placeholder("${quickPlayPath}"@));
    assert(is_placeholder("${quickPlaySingleplayer}"@));
    assert(is_placeholder("${quickPlayMultiplayer}"@));
    assert(is_placeholder("${quickPlayRealms}"@));
    if no_dollar(g.assets_root) {
        lemma_replaced_other_placeholder("${assets_root}"@, "${auth_player_name}"@, g.player_name);
        lemma_replaced_other_placeholder("${assets_root}"@, "${version_name}"@, g.version_name);
        lemma_replaced_other_placeholder("${assets_root}"@, "${game_directory}"@, g.game_directory);
        lemma_replaced_whole("${assets_root}"@, g.assets_root);
        lemma_replaced_no_dollar(g.assets_root, "${assets_index_name}"@, g.assets_index_name);
        lemma_replaced_no_dollar(g.assets_root, "${auth_uuid}"@, g.uuid);
        lemma_replaced_no_dollar(g.assets_root, "${auth_access_token}"@, g.access_token);
        lemma_replaced_no_dollar(g.assets_root, "${clientid}"@, g.client_id);
        lemma_replaced_no_dollar(g.assets_root, "${auth_xuid}"@, g.xuid);
        lemma_replaced_no_dollar(g.assets_root, "${version_type}"@, g.version_type);
        lemma_replaced_no_dollar(g.assets_root, "${resolution_width}"@, g.resolution_width);
        lemma_replaced_no_dollar(g.assets_root, "${resolution_height}"@, g.resolution_height);
        lemma_replaced_no_dollar(g.assets_root, "${quickPlayPath}"@, g.quick_play_path);
        lemma_replaced_no_dollar(g.assets_root, "${quickPlaySingleplayer}"@, g.quick_play_singleplayer);
        lemma_replaced_no_dollar(g.assets_root, "${quickPlayMultiplayer}"@, g.quick_play_multiplayer);
        lemma_replaced_no_dollar(g.assets_root, "${quickPlayRealms}"@, g.quick_play_realms);
    }
}

proof fn lemma_game_placeholder_filled_4(g: GameInfoView)
    ensures
        no_dollar(g.assets_index_name) ==> game_substituted("${assets_index_name}"@, g) == g.assets_index_name,
{
    reveal_strlit("${auth_player_name}");
    reveal_strlit("${version_name}");
    reveal_strlit("${game_directory}");
    reveal_strlit("${assets_root}");
    reveal_strlit("${assets_index_name}");
    reveal_strlit("${auth_uuid}");
    reveal_strlit("${auth_access_token}");
    reveal_strlit("${clientid}");
    reveal_strlit("${auth_xuid}");
    reveal_strlit("${version_type}");
    reveal_strlit("${resolution_width}");
    reveal_strlit("${resolution_height}");
    reveal_strlit("${quickPlayPath}");
    reveal_strlit("${quickPlaySingleplayer}");
    reveal_strlit("${quickPlayMultiplayer}");
    reveal_strlit("${quickPlayRealms}");
    assert(is_placeholder("${auth_player_name}"@));
    assert(is_placeholder("${version_name}"@));
    assert(is_placeholder("${game_directory}"@));
    assert(is_placeholder("${assets_root}"@));
    assert(is_placeholder("${assets_index_name}"@));
    assert(is_placeholder("${auth_uuid}"@));
    assert(is_placeholder("${auth_access_token}"@));
    assert(is_placeholder("${clientid}"@));
    assert(is_placeholder("${auth_xuid}"@));
    assert(is_placeholder("${version_type}"@));
    assert(is_placeholder("${resolution_width}"@));
    assert(is_placeholder("${resolution_height}"@));
    assert(is_placeholder("${quickPlayPath}"@));
    assert(is_placeholder("${quickPlaySingleplayer}"@));
    assert(is_placeholder("${quickPlayMultiplayer}"@));
    assert(is_placeholder("${quickPlayRealms}"@));
    if no_dollar(g.assets_index_name) {
        lemma_replaced_other_placeholder("${assets_index_name}"@, "${auth_player_name}"@, g.player_name);
        lemma_replaced_other_placeholder("${assets_index_name}"@, "${version_name}"@, g.version_name);
        lemma_replaced_other_placeholder("${assets_index_name}"@, "${game_directory}"@, g.game_directory);
        lemma_replaced_other_placeholder("${assets_index_name}"@, "${assets_root}"@, g.assets_root);
        lemma_replaced_whole("${assets_index_name}"@, g.assets_index_name);
        lemma_replaced_no_dollar(g.assets_index_name, "${auth_uuid}"@, g.uuid);
        lemma_replaced_no_dollar(g.assets_index_name, "${auth_access_token}"@, g.access_token);
        lemma_replaced_no_dollar(g.assets_index_name, "${clientid}"@, g.client_id);
        lemma_replaced_no_dollar(g.assets_index_name, "${auth_xuid}"@, g.xuid);
        lemma_replaced_no_dollar(g.assets_index_name, "${version_type}"@, g.version_type);
        lemma_replaced_no_dollar(g.assets_index_name, "${resolution_width}"@, g.resolution_width);
        lemma_replaced_no_dollar(g.assets_index_name, "${resolution_height}"@, g.resolution_height);
        lemma_replaced_no_dollar(g.assets_index_name, "${quickPlayPath}"@, g.quick_play_path);
        lemma_replaced_no_dollar(g.assets_index_name, "${quickPlaySingleplayer}"@, g.quick_play_singleplayer);
        lemma_replaced_no_dollar(g.assets_index_name, "${quickPlayMultiplayer}"@, g.quick_play_multiplayer);
        lemma_replaced_no_dollar(g.assets_index_name, "${quickPlayRealms}"@, g.quick_play_realms);
    }
}

proof fn lemma_game_placeholder_filled_5(g: GameInfoView)
    ensures
        no_dollar(g.uuid) ==> game_substituted("${auth_uuid}"@, g) == g.uuid,
{
    reveal_strlit("${auth_player_name}");
    reveal_strlit("${version_name}");
    reveal_strlit("${game_directory}");
    reveal_strlit("${assets_root}");
    reveal_strlit("${assets_index_name}");
    reveal_strlit("${auth_uuid}");
    reveal_strlit("${auth_access_token}");
    reveal_strlit("${clientid}");
    reveal_strlit("${auth_xuid}");
    reveal_strlit("${version_type}");
    reveal_strlit("${resolution_width}");
    reveal_strlit("${resolution_height}");
    reveal_strlit("${quickPlayPath}");
    reveal_strlit("${quickPlaySingleplayer}");
    reveal_strlit("${quickPlayMultiplayer}");
    reveal_strlit("${quickPlayRealms}");
    assert(is_placeholder("${auth_player_name}"@));
    assert(is_placeholder("${version_name}"@));
    assert(is_placeholder("${game_directory}"@));
    assert(is_placeholder("${assets_root}"@));
    assert(is_placeholder("${assets_index_name}"@));
    assert(is_placeholder("${auth_uuid}"@));
    assert(is_placeholder("${auth_access_token}"@));
    assert(is_placeholder("${clientid}"@));
    assert(is_placeholder("${auth_xuid}"@));
    assert(is_placeholder("${version_type}"@));
    assert(is_placeholder("${resolution_width}"@));
    assert(is_placeholder("${resolution_height}"@));
    assert(is_placeholder("${quickPlayPath}"@));
    assert(is_placeholder("${quickPlaySingleplayer}"@));
    assert(is_placeholder("${quickPlayMultiplayer}"@));
    assert(is_placeholder("${quickPlayRealms}"@));
    if no_dollar(g.uuid) {
        lemma_replaced_other_placeholder("${auth_uuid}"@, "${auth_player_name}"@, g.player_name);
        lemma_replaced_other_placeholder("${auth_uuid}"@, "${version_name}"@, g.version_name);
        lemma_replaced_other_placeholder("${auth_uuid}"@, "${game_directory}"@, g.game_directory);
        lemma_replaced_other_placeholder("${auth_uuid}"@, "${assets_root}"@, g.assets_root);
        lemma_replaced_other_placeholder("${auth_uuid}"@, "${assets_index_name}"@, g.assets_index_name);
        lemma_replaced_whole("${auth_uuid}"@, g.uuid);
        lemma_replaced_no_dollar(g.uuid, "${auth_access_token}"@, g.access_token);
        lemma_replaced_no_dollar(g.uuid, "${clientid}"@, g.client_id);
        lemma_replaced_no_dollar(g.uuid, "${auth_xuid}"@, g.xuid);
        lemma_replaced_no_dollar(g.uuid, "${version_type}"@, g.version_type);
        lemma_replaced_no_dollar(g.uuid, "${resolution_width}"@, g.resolution_width);
        lemma_replaced_no_dollar(g.uuid, "${resolution_height}"@, g.resolution_height);
        lemma_replaced_no_dollar(g.uuid, "${quickPlayPath}"@, g.quick_play_path);
        lemma_replaced_no_dollar(g.uuid, "${quickPlaySingleplayer}"@, g.quick_play_singleplayer);
        lemma_replaced_no_dollar(g.uuid, "${quickPlayMultiplayer}"@, g.quick_play_multiplayer);
        lemma_replaced_no_dollar(g.uuid, "${quickPlayRealms}"@, g.quick_play_realms);
    }
}

proof fn lemma_game_placeholder_filled_6(g: GameInfoView)
    ensures
        no_dollar(g.access_token) ==> game_substituted("${auth_access_token}"@, g) == g.access_token,
{
    reveal_strlit("${auth_player_name}");
    reveal_strlit("${version_name}");
    reveal_strlit("${game_directory}");
    reveal_strlit("${assets_root}");
    reveal_strlit("${assets_index_name}");
    reveal_strlit("${auth_uuid}");
    reveal_strlit("${auth_access_token}");
    reveal_strlit("${clientid}");
    reveal_strlit("${auth_xuid}");
    reveal_strlit("${version_type}");
    reveal_strlit("${resolution_width}");
    reveal_strlit("${resolution_height}");
    reveal_strlit("${quickPlayPath}");
    reveal_strlit("${quickPlaySingleplayer}");
    reveal_strlit("${quickPlayMultiplayer}");
    reveal_strlit("${quickPlayRealms}");
    assert(is_placeholder("${auth_player_name}"@));
    assert(is_placeholder("${version_name}"@));
    assert(is_placeholder("${game_directory}"@));
    assert(is_placeholder("${assets_root}"@));
    assert(is_placeholder("${assets_index_name}"@));
    assert(is_placeholder("${auth_uuid}"@));
    assert(is_placeholder("${auth_access_token}"@));
    assert(is_placeholder("${clientid}"@));
    assert(is_placeholder("${auth_xuid}"@));
    assert(is_placeholder("${version_type}"@));
    assert(is_placeholder("${resolution_width}"@));
    assert(is_placeholder("${resolution_height}"@));
    assert(is_placeholder("${quickPlayPath}"@));
    assert(is_placeholder("${quickPlaySingleplayer}"@));
    assert(is_placeholder("${quickPlayMultiplayer}"@));
    assert(is_placeholder("${quickPlayRealms}"@));
    if no_dollar(g.access_token) {
        lemma_replaced_other_placeholder("${auth_access_token}"@, "${auth_player_name}"@, g.player_name);
        lemma_replaced_other_placeholder("${auth_access_token}"@, "${version_name}"@, g.version_name);
        lemma_replaced_other_placeholder("${auth_access_token}"@, "${game_directory}"@, g.game_directory);
        lemma_replaced_other_placeholder("${auth_access_token}"@, "${assets_root}"@, g.assets_root);
        assert("${auth_access_token}"@[3] != "${assets_index_name}"@[3]);
        lemma_replaced_other_placeholder("${auth_access_token}"@, "${assets_index_name}"@, g.assets_index_name);
        lemma_replaced_other_placeholder("${auth_access_token}"@, "${auth_uuid}"@, g.uuid);
        lemma_replaced_whole("${auth_access_token}"@, g.access_token);
        lemma_replaced_no_dollar(g.access_token, "${clientid}"@, g.client_id);
        lemma_replaced_no_dollar(g.access_token, "${auth_xuid}"@, g.xuid);
        lemma_replaced_no_dollar(g.access_token, "${version_type}"@, g.version_type);
        lemma_replaced_no_dollar(g.access_token, "${resolution_width}"@, g.resolution_width);
        lemma_replaced_no_dollar(g.access_token, "${resolution_height}"@, g.resolution_height);
        lemma_replaced_no_dollar(g.access_token, "${quickPlayPath}"@, g.quick_play_path);
        lemma_replaced_no_dollar(g.access_token, "${quickPlaySingleplayer}"@, g.quick_play_singleplayer);
        lemma_replaced_no_dollar(g.access_token, "${quickPlayMultiplayer}"@, g.quick_play_multiplayer);
        lemma_replaced_no_dollar(g.access_token, "${quickPlayRealms}"@, g.quick_play_realms);
    }
}

proof fn lemma_game_placeholder_filled_7(g: GameInfoView)
    ensures
        no_dollar(g.client_id) ==> game_substituted("${clientid}"@, g) == g.client_id,
{
    reveal_strlit("${auth_player_name}");
    reveal_strlit("${version_name}");
    reveal_strlit("${game_directory}");
    reveal_strlit("${assets_root}");
    reveal_strlit("${assets_index_name}");
    reveal_strlit("${auth_uuid}");
    reveal_strlit("${auth_access_token}");
    reveal_strlit("${clientid}");
    reveal_strlit("${auth_xuid}");
    reveal_strlit("${version_type}");
    reveal_strlit("${resolution_width}");
    reveal_strlit("${resolution_height}");
    reveal_strlit("${quickPlayPath}");
    reveal_strlit("${quickPlaySingleplayer}");
    reveal_strlit("${quickPlayMultiplayer}");
    reveal_strlit("${quickPlayRealms}");
    assert(is_placeholder("${auth_player_name}"@));
    assert(is_placeholder("${version_name}"@));
    assert(is_placeholder("${game_directory}"@));
    assert(is_placeholder("${assets_root}"@));
    assert(is_placeholder("${assets_index_name}"@));
    assert(is_placeholder("${auth_uuid}"@));
    assert(is_placeholder("${auth_access_token}"@));
    assert(is_placeholder("${clientid}"@));
    assert(is_placeholder("${auth_xuid}"@));
    assert(is_placeholder("${version_type}"@));
    assert(is_placeholder("${resolution_width}"@));
    assert(is_placeholder("${resolution_height}"@));
    assert(is_placeholder("${quickPlayPath}"@));
    assert(is_placeholder("${quickPlaySingleplayer}"@));
    assert(is_placeholder("${quickPlayMultiplayer}"@));
    assert(is_placeholder("${quickPlayRealms}"@));
    if no_dollar(g.client_id) {
        lemma_replaced_other_placeholder("${clientid}"@, "${auth_player_name}"@, g.player_name);
        lemma_replaced_other_placeholder("${clientid}"@, "${version_name}"@, g.version_name);
        lemma_replaced_other_placeholder("${clientid}"@, "${game_directory}"@, g.game_directory);
        lemma_replaced_other_placeholder("${clientid}"@, "${assets_root}"@, g.assets_root);
        lemma_replaced_other_placeholder("${clientid}"@, "${assets_index_name}"@, g.assets_index_name);
        lemma_replaced_other_placeholder("${clientid}"@, "${auth_uuid}"@, g.uuid);
        lemma_replaced_other_placeholder("${clientid}"@, "${auth_access_token}"@, g.access_token);
        lemma_replaced_whole("${clientid}"@, g.client_id);
        lemma_replaced_no_dollar(g.client_id, "${auth_xuid}"@, g.xuid);
        lemma_replaced_no_dollar(g.client_id, "${version_type}"@, g.version_type);
        lemma_replaced_no_dollar(g.client_id, "${resolution_width}"@, g.resolution_width);
        lemma_replaced_no_dollar(g.client_id, "${resolution_height}"@, g.resolution_height);
        lemma_replaced_no_dollar(g.client_id, "${quickPlayPath}"@, g.quick_play_path);
        lemma_replaced_no_dollar(g.client_id, "${quickPlaySingleplayer}"@, g.quick_play_singleplayer);
        lemma_replaced_no_dollar(g.client_id, "${quickPlayMultiplayer}"@, g.quick_play_multiplayer);
        lemma_replaced_no_dollar(g.client_id, "${quickPlayRealms}"@, g.quick_play_realms);
    }
}

proof fn lemma_game_placeholder_filled_8(g: GameInfoView)
    ensures
        no_dollar(g.xuid) ==> game_substituted("${auth_xuid}"@, g) == g.xuid,
{
    reveal_strlit("${auth_player_name}");
    reveal_strlit("${version_name}");
    reveal_strlit("${game_directory}");
    reveal_strlit("${assets_root}");
    reveal_strlit("${assets_index_name}");
    reveal_strlit("${auth_uuid}");
    reveal_strlit("${auth_access_token}");
    reveal_strlit("${clientid}");
    reveal_strlit("${auth_xuid}");
    reveal_strlit("${version_type}");
    reveal_strlit("${resolution_width}");
    reveal_strlit("${resolution_height}");
    reveal_strlit("${quickPlayPath}");
    reveal_strlit("${quickPlaySingleplayer}");
    reveal_strlit("${quickPlayMultiplayer}");
    reveal_strlit("${quickPlayRealms}");
    assert(is_placeholder("${auth_player_name}"@));
    assert(is_placeholder("${version_name}"@));
    assert(is_placeholder("${game_directory}"@));
    assert(is_placeholder("${assets_root}"@));
    assert(is_placeholder("${assets_index_name}"@));
    assert(is_placeholder("${auth_uuid}"@));
    assert(is_placeholder("${auth_access_token}"@));
    assert(is_placeholder("${clientid}"@));
    assert(is_placeholder("${auth_xuid}"@));
    assert(is_placeholder("${version_type}"@));
    assert(is_placeholder("${resolution_width}"@));
    assert(is_placeholder("${resolution_height}"@));
    assert(is_placeholder("${quickPlayPath}"@));
    assert(is_placeholder("${quickPlaySingleplayer}"@));
    assert(is_placeholder("${quickPlayMultiplayer}"@));
    assert(is_placeholder("${quickPlayRealms}"@));
    if no_dollar(g.xuid) {
        lemma_replaced_other_placeholder("${auth_xuid}"@, "${auth_player_name}"@, g.player_name);
        lemma_replaced_other_placeholder("${auth_xuid}"@, "${version_name}"@, g.version_name);
        lemma_replaced_other_placeholder("${auth_xuid}"@, "${game_directory}"@, g.game_directory);
        lemma_replaced_other_placeholder("${auth_xuid}"@, "${assets_root}"@, g.assets_root);
        lemma_replaced_other_placeholder("${auth_xuid}"@, "${assets_index_name}"@, g.assets_index_name);
        assert("${auth_xuid}"@[7] != "${auth_uuid}"@[7]);
        lemma_replaced_other_placeholder("${auth_xuid}"@, "${auth_uuid}"@, g.uuid);
        lemma_replaced_other_placeholder("${auth_xuid}"@, "${auth_access_token}"@, g.access_token);
        lemma_replaced_other_placeholder("${auth_xuid}"@, "${clientid}"@, g.client_id);
        lemma_replaced_whole("${auth_xuid}"@, g.xuid);
        lemma_replaced_no_dollar(g.xuid, "${version_type}"@, g.version_type);
        lemma_replaced_no_dollar(g.xuid, "${resolution_width}"@, g.resolution_width);
        lemma_replaced_no_dollar(g.xuid, "${resolution_height}"@, g.resolution_height);
        lemma_replaced_no_dollar(g.xuid, "${quickPlayPath}"@, g.quick_play_path);
        lemma_replaced_no_dollar(g.xuid, "${quickPlaySingleplayer}"@, g.quick_play_singleplayer);
        lemma_replaced_no_dollar(g.xuid, "${quickPlayMultiplayer}"@, g.quick_play_multiplayer);
        lemma_replaced_no_dollar(g.xuid, "${quickPlayRealms}"@, g.quick_play_realms);
    }
}

proof fn lemma_game_placeholder_filled_9(g: GameInfoView)
    ensures
        no_dollar(g.version_type) ==> game_substituted("${version_type}"@, g) == g.version_type,
{
    reveal_strlit("${auth_player_name}");
    reveal_strlit("${version_name}");
    reveal_strlit("${game_directory}");
    reveal_strlit("${assets_root}");
    reveal_strlit("${assets_index_name}");
    reveal_strlit("${auth_uuid}");
    reveal_strlit("${auth_access_token}");
    reveal_strlit("${clientid}");
    reveal_strlit("${auth_xuid}");
    reveal_strlit("${version_type}");
    reveal_strlit("${resolution_width}");
    reveal_strlit("${resolution_height}");
    reveal_strlit("${quickPlayPath}");
    reveal_strlit("${quickPlaySingleplayer}");
    reveal_strlit("${quickPlayMultiplayer}");
    reveal_strlit("${quickPlayRealms}");
    assert(is_placeholder("${auth_player_name}"@));
    assert(is_placeholder("${version_name}"@));
    assert(is_placeholder("${game_directory}"@));
    assert(is_placeholder("${assets_root}"@));
    assert(is_placeholder("${assets_index_name}"@));
    assert(is_placeholder("${auth_uuid}"@));
    assert(is_placeholder("${auth_access_token}"@));
    assert(is_placeholder("${clientid}"@));
    assert(is_placeholder("${auth_xuid}"@));
    assert(is_placeholder("${version_type}"@));
    assert(is_placeholder("${resolution_width}"@));
    assert(is_placeholder("${resolution_height}"@));
    assert(is_placeholder("${quickPlayPath}"@));
    assert(is_placeholder("${quickPlaySingleplayer}"@));
    assert(is_placeholder("${quickPlayMultiplayer}"@));
    assert(is_placeholder("${quickPlayRealms}"@));
    if no_dollar(g.version_type) {
        lemma_replaced_other_placeholder("${version_type}"@, "${auth_player_name}"@, g.player_name);
        assert("${version_type}"@[10] != "${version_name}"@[10]);
        lemma_replaced_other_placeholder("${version_type}"@, "${version_name}"@, g.version_name);
        lemma_replaced_other_placeholder("${version_type}"@, "${game_directory}"@, g.game_directory);
        lemma_replaced_other_placeholder("${version_type}"@, "${assets_root}"@, g.assets_root);
        lemma_replaced_other_placeholder("${version_type}"@, "${assets_index_name}"@, g.assets_index_name);
        lemma_replaced_other_placeholder("${version_type}"@, "${auth_uuid}"@, g.uuid);
        lemma_replaced_other_placeholder("${version_type}"@, "${auth_access_token}"@, g.access_token);
        lemma_replaced_other_placeholder("${version_type}"@, "${clientid}"@, g.client_id);
        lemma_replaced_other_placeholder("${version_type}"@, "${auth_xuid}"@, g.xuid);
        lemma_replaced_whole("${version_type}"@, g.version_type);
        lemma_replaced_no_dollar(g.version_type, "${resolution_width}"@, g.resolution_width);
        lemma_replaced_no_dollar(g.version_type, "${resolution_height}"@, g.resolution_height);
        lemma_replaced_no_dollar(g.version_type, "${quickPlayPath}"@, g.quick_play_path);
        lemma_replaced_no_dollar(g.version_type, "${quickPlaySingleplayer}"@, g.quick_play_singleplayer);
        lemma_replaced_no_dollar(g.version_type, "${quickPlayMultiplayer}"@, g.quick_play_multiplayer);
        lemma_replaced_no_dollar(g.version_type, "${quickPlayRealms}"@, g.quick_play_realms);
    }
}

proof fn lemma_game_placeholder_filled_10(g: GameInfoView)
    ensures
        no_dollar(g.resolution_width) ==> game_substituted("${resolution_width}"@, g) == g.resolution_width,
{
    reveal_strlit("${auth_player_name}");
    reveal_strlit("${version_name}");
    reveal_strlit("${game_directory}");
    reveal_strlit("${assets_root}");
    reveal_strlit("${assets_index_name}");
    reveal_strlit("${auth_uuid}");
    reveal_strlit("${auth_access_token}");
    reveal_strlit("${clientid}");
    reveal_strlit("${auth_xuid}");
    reveal_strlit("${version_type}");
    reveal_strlit("${resolution_width}");
    reveal_strlit("${resolution_height}");
    reveal_strlit("${quickPlayPath}");
    reveal_strlit("${quickPlaySingleplayer}");
    reveal_strlit("${quickPlayMultiplayer}");
    reveal_strlit("${quickPlayRealms}");
    assert(is_placeholder("${auth_player_name}"@));
    assert(is_placeholder("${version_name}"@));
    assert(is_placeholder("${game_directory}"@));
    assert(is_placeholder("${assets_root}"@));
    assert(is_placeholder("${assets_index_name}"@));
    assert(is_placeholder("${auth_uuid}"@));
    assert(is_placeholder("${auth_access_token}"@));
    assert(is_placeholder("${clientid}"@));
    assert(is_placeholder("${auth_xuid}"@));
    assert(is_placeholder("${version_type}"@));
    assert(is_placeholder("${resolution_width}"@));
    assert(is_placeholder("${resolution_height}"@));
    assert(is_placeholder("${quickPlayPath}"@));
    assert(is_placeholder("${quickPlaySingleplayer}"@));
    assert(is_placeholder("${quickPlayMultiplayer}"@));
    assert(is_placeholder("${quickPlayRealms}"@));
    if no_dollar(g.resolution_width) {
        assert("${resolution_width}"@[2] != "${auth_player_name}"@[2]);
        lemma_replaced_other_placeholder("${resolution_width}"@, "${auth_player_name}"@, g.player_name);
        lemma_replaced_other_placeholder("${resolution_width}"@, "${version_name}"@, g.version_name);
        lemma_replaced_other_placeholder("${resolution_width}"@, "${game_directory}"@, g.game_directory);
        lemma_replaced_other_placeholder("${resolution_width}"@, "${assets_root}"@, g.assets_root);
        lemma_replaced_other_placeholder("${resolution_width}"@, "${assets_index_name}"@, g.assets_index_name);
        lemma_replaced_other_placeholder("${resolution_width}"@, "${auth_uuid}"@, g.uuid);
        lemma_replaced_other_placeholder("${resolution_width}"@, "${auth_access_token}"@, g.access_token);
        lemma_replaced_other_placeholder("${resolution_width}"@, "${clientid}"@, g.client_id);
        lemma_replaced_other_placeholder("${resolution_width}"@, "${auth_xuid}"@, g.xuid);
        lemma_replaced_other_placeholder("${resolution_width}"@, "${version_type}"@, g.version_type);
        lemma_replaced_whole("${resolution_width}"@, g.resolution_width);
        lemma_replaced_no_dollar(g.resolution_width, "${resolution_height}"@, g.resolution_height);
        lemma_replaced_no_dollar(g.resolution_width, "${quickPlayPath}"@, g.quick_play_path);
        lemma_replaced_no_dollar(g.resolution_width, "${quickPlaySingleplayer}"@, g.quick_play_singleplayer);
        lemma_replaced_no_dollar(g.resolution_width, "${quickPlayMultiplayer}"@, g.quick_play_multiplayer);
        lemma_replaced_no_dollar(g.resolution_width, "${quickPlayRealms}"@, g.quick_play_realms);
    }
}

proof fn lemma_game_placeholder_filled_11(g: GameInfoView)
    ensures
        no_dollar(g.resolution_height) ==> game_substituted("${resolution_height}"@, g) == g.resolution_height,
{
    reveal_strlit("${auth_player_name}");
    reveal_strlit("${version_name}");
    reveal_strlit("${game_directory}");
    reveal_strlit("${assets_root}");
    reveal_strlit("${assets_index_name}");
    reveal_strlit("${auth_uuid}");
    reveal_strlit("${auth_access_token}");
    reveal_strlit("${clientid}");
    reveal_strlit("${auth_xuid}");
    reveal_strlit("${version_type}");
    reveal_strlit("${resolution_width}");
    reveal_strlit("${resolution_height}");
    reveal_strlit("${quickPlayPath}");
    reveal_strlit("${quickPlaySingleplayer}");
    reveal_strlit("${quickPlayMultiplayer}");
    reveal_strlit("${quickPlayRealms}");
    assert(is_placeholder("${auth_player_name}"@));
    assert(is_placeholder("${version_name}"@));
    assert(is_placeholder("${game_directory}"@));
    assert(is_placeholder("${assets_root}"@));
    assert(is_placeholder("${assets_index_name}"@));
    assert(is_placeholder("${auth_uuid}"@));
    assert(is_placeholder("${auth_access_token}"@));
    assert(is_placeholder("${clientid}"@));
    assert(is_placeholder("${auth_xuid}"@));
    assert(is_placeholder("${version_type}"@));
    assert(is_placeholder("${resolution_width}"@));
    assert(is_placeholder("${resolution_height}"@));
    assert(is_placeholder("${quickPlayPath}"@));
    assert(is_placeholder("${quickPlaySingleplayer}"@));
    assert(is_placeholder("${quickPlayMultiplayer}"@));
    assert(is_placeholder("${quickPlayRealms}"@));
    if no_dollar(g.resolution_height) {
        lemma_replaced_other_placeholder("${resolution_height}"@, "${auth_player_name}"@, g.player_name);
        lemma_replaced_other_placeholder("${resolution_height}"@, "${version_name}"@, g.version_name);
        lemma_replaced_other_placeholder("${resolution_height}"@, "${game_directory}"@, g.game_directory);
        lemma_replaced_other_placeholder("${resolution_height}"@, "${assets_root}"@, g.assets_root);
        assert("${resolution_height}"@[2] != "${assets_index_name}"@[2]);
        lemma_replaced_other_placeholder("${resolution_height}"@, "${assets_index_name}"@, g.assets_index_name);
        lemma_replaced_other_placeholder("${resolution_height}"@, "${auth_uuid}"@, g.uuid);
        assert("${resolution_height}"@[2] != "${auth_access_token}"@[2]);
        lemma_replaced_other_placeholder("${resolution_height}"@, "${auth_access_token}"@, g.access_token);
        lemma_replaced_other_placeholder("${resolution_height}"@, "${clientid}"@, g.client_id);
        lemma_replaced_other_placeholder("${resolution_height}"@, "${auth_xuid}"@, g.xuid);
        lemma_replaced_other_placeholder("${resolution_height}"@, "${version_type}"@, g.version_type);
        lemma_replaced_other_placeholder("${resolution_height}"@, "${resolution_width}"@, g.resolution_width);
        lemma_replaced_whole("${resolution_height}"@, g.resolution_height);
        lemma_replaced_no_dollar(g.resolution_height, "${quickPlayPath}"@, g.quick_play_path);
        lemma_replaced_no_dollar(g.resolution_height, "${quickPlaySingleplayer}"@, g.quick_play_singleplayer);
        lemma_replaced_no_dollar(g.resolution_height, "${quickPlayMultiplayer}"@, g.quick_play_multiplayer);
        lemma_replaced_no_dollar(g.resolution_height, "${quickPlayRealms}"@, g.quick_play_realms);
    }
}

proof fn lemma_game_placeholder_filled_12(g: GameInfoView)
    ensures
        no_dollar(g.quick_play_path) ==> game_substituted("${quickPlayPath}"@, g) == g.quick_play_path,
{
    reveal_strlit("${auth_player_name}");
    reveal_strlit("${version_name}");
    reveal_strlit("${game_directory}");
    reveal_strlit("${assets_root}");
    reveal_strlit("${assets_index_name}");
    reveal_strlit("${auth_uuid}");
    reveal_strlit("${auth_access_token}");
    reveal_strlit("${clientid}");
    reveal_strlit("${auth_xuid}");
    reveal_strlit("${version_type}");
    reveal_strlit("${resolution_width}");
    reveal_strlit("${resolution_height}");
    reveal_strlit("${quickPlayPath}");
    reveal_strlit("${quickPlaySingleplayer}");
    reveal_strlit("${quickPlayMultiplayer}");
    reveal_strlit("${quickPlayRealms}");
    assert(is_placeholder("${auth_player_name}"@));
    assert(is_placeholder("${version_name}"@));
    assert(is_placeholder("${game_directory}"@));
    assert(is_placeholder("${assets_root}"@));
    assert(is_placeholder("${assets_index_name}"@));
    assert(is_placeholder("${auth_uuid}"@));
    assert(is_placeholder("${auth_access_token}"@));
    assert(is_placeholder("${clientid}"@));
    assert(is_placeholder("${auth_xuid}"@));
    assert(is_placeholder("${version_type}"@));
    assert(is_placeholder("${resolution_width}"@));
    assert(is_placeholder("${resolution_height}"@));
    assert(is_placeholder("${quickPlayPath}"@));
    assert(is_placeholder("${quickPlaySingleplayer}"@));
    assert(is_placeholder("${quickPlayMultiplayer}"@));
    assert(is_placeholder("${quickPlayRealms}"@));
    if no_dollar(g.quick_play_path) {
        lemma_replaced_other_placeholder("${quickPlayPath}"@, "${auth_player_name}"@, g.player_name);
        lemma_replaced_other_placeholder("${quickPlayPath}"@, "${version_name}"@, g.version_name);
        lemma_replaced_other_placeholder("${quickPlayPath}"@, "${game_directory}"@, g.game_directory);
        lemma_replaced_other_placeholder("${quickPlayPath}"@, "${assets_root}"@, g.assets_root);
        lemma_replaced_other_placeholder("${quickPlayPath}"@, "${assets_index_name}"@, g.assets_index_name);
        lemma_replaced_other_placeholder("${quickPlayPath}"@, "${auth_uuid}"@, g.uuid);
        lemma_replaced_other_placeholder("${quickPlayPath}"@, "${auth_access_token}"@, g.access_token);
        lemma_replaced_other_placeholder("${quickPlayPath}"@, "${clientid}"@, g.client_id);
        lemma_replaced_other_placeholder("${quickPlayPath}"@, "${auth_xuid}"@, g.xuid);
        lemma_replaced_other_placeholder("${quickPlayPath}"@, "${version_type}"@, g.version_type);
        lemma_replaced_other_placeholder("${quickPlayPath}"@, "${resolution_width}"@, g.resolution_width);
        lemma_replaced_other_placeholder("${quickPlayPath}"@, "${resolution_height}"@, g.resolution_height);
        lemma_replaced_whole("${quickPlayPath}"@, g.quick_play_path);
        lemma_replaced_no_dollar(g.quick_play_path, "${quickPlaySingleplayer}"@, g.quick_play_singleplayer);
        lemma_replaced_no_dollar(g.quick_play_path, "${quickPlayMultiplayer}"@, g.quick_play_multiplayer);
        lemma_replaced_no_dollar(g.quick_play_path, "${quickPlayRealms}"@, g.quick_play_realms);
    }
}

proof fn lemma_game_placeholder_filled_13(g: GameInfoView)
    ensures
        no_dollar(g.quick_play_singleplayer) ==> game_substituted("${quickPlaySingleplayer}"@, g) == g.quick_play_singleplayer,
{
    reveal_strlit("${auth_player_name}");
    reveal_strlit("${version_name}");
    reveal_strlit("${game_directory}");
    reveal_strlit("${assets_root}");
    reveal_strlit("${assets_index_name}");
    reveal_strlit("${auth_uuid}");
    reveal_strlit("${auth_access_token}");
    reveal_strlit("${clientid}");
    reveal_strlit("${auth_xuid}");
    reveal_strlit("${version_type}");
    reveal_strlit("${resolution_width}");
    reveal_strlit("${resolution_height}");
    reveal_strlit("${quickPlayPath}");
    reveal_strlit("${quickPlaySingleplayer}");
    reveal_strlit("${quickPlayMultiplayer}");
    reveal_strlit("${quickPlayRealms}");
    assert(is_placeholder("${auth_player_name}"@));
    assert(is_placeholder("${version_name}"@));
    assert(is_placeholder("${game_directory}"@));
    assert(is_placeholder("${assets_root}"@));
    assert(is_placeholder("${assets_index_name}"@));
    assert(is_placeholder("${auth_uuid}"@));
    assert(is_placeholder("${auth_access_token}"@));
    assert(is_placeholder("${clientid}"@));
    assert(is_placeholder("${auth_xuid}"@));
    assert(is_placeholder("${version_type}"@));
    assert(is_placeholder("${resolution_width}"@));
    assert(is_placeholder("${resolution_height}"@));
    assert(is_placeholder("${quickPlayPath}"@));
    assert(is_placeholder("${quickPlaySingleplayer}"@));
    assert(is_placeholder("${quickPlayMultiplayer}"@));
    assert(is_placeholder("${quickPlayRealms}"@));
    if no_dollar(g.quick_play_singleplayer) {
        lemma_replaced_other_placeholder("${quickPlaySingleplayer}"@, "${auth_player_name}"@, g.player_name);
        lemma_replaced_other_placeholder("${quickPlaySingleplayer}"@, "${version_name}"@, g.version_name);
        lemma_replaced_other_placeholder("${quickPlaySingleplayer}"@, "${game_directory}"@, g.game_directory);
        lemma_replaced_other_placeholder("${quickPlaySingleplayer}"@, "${assets_root}"@, g.assets_root);
        lemma_replaced_other_placeholder("${quickPlaySingleplayer}"@, "${assets_index_name}"@, g.assets_index_name);
        lemma_replaced_other_placeholder("${quickPlaySingleplayer}"@, "${auth_uuid}"@, g.uuid);
        lemma_replaced_other_placeholder("${quickPlaySingleplayer}"@, "${auth_access_token}"@, g.access_token);
        lemma_replaced_other_placeholder("${quickPlaySingleplayer}"@, "${clientid}"@, g.client_id);
        lemma_replaced_other_placeholder("${quickPlaySingleplayer}"@, "${auth_xuid}"@, g.xuid);
        lemma_replaced_other_placeholder("${quickPlaySingleplayer}"@, "${version_type}"@, g.version_type);
        lemma_replaced_other_placeholder("${quickPlaySingleplayer}"@, "${resolution_width}"@, g.resolution_width);
        lemma_replaced_other_placeholder("${quickPlaySingleplayer}"@, "${resolution_height}"@, g.resolution_height);
        lemma_replaced_other_placeholder("${quickPlaySingleplayer}"@, "${quickPlayPath}"@, g.quick_play_path);
        lemma_replaced_whole("${quickPlaySingleplayer}"@, g.quick_play_singleplayer);
        lemma_replaced_no_dollar(g.quick_play_singleplayer, "${quickPlayMultiplayer}"@, g.quick_play_multiplayer);
        lemma_replaced_no_dollar(g.quick_play_singleplayer, "${quickPlayRealms}"@, g.quick_play_realms);
    }
}

proof fn lemma_game_placeholder_filled_14(g: GameInfoView)
    ensures
        no_dollar(g.quick_play_multiplayer) ==> game_substituted("${quickPlayMultiplayer}"@, g) == g.quick_play_multiplayer,
{
    reveal_strlit("${auth_player_name}");
    reveal_strlit("${version_name}");
    reveal_strlit("${game_directory}");
    reveal_strlit("${assets_root}");
    reveal_strlit("${assets_index_name}");
    reveal_strlit("${auth_uuid}");
    reveal_strlit("${auth_access_token}");
    reveal_strlit("${clientid}");
    reveal_strlit("${auth_xuid}");
    reveal_strlit("${version_type}");
    reveal_strlit("${resolution_width}");
    reveal_strlit("${resolution_height}");
    reveal_strlit("${quickPlayPath}");
    reveal_strlit("${quickPlaySingleplayer}");
    reveal_strlit("${quickPlayMultiplayer}");
    reveal_strlit("${quickPlayRealms}");
    assert(is_placeholder("${auth_player_name}"@));
    assert(is_placeholder("${version_name}"@));
    assert(is_placeholder("${game_directory}"@));
    assert(is_placeholder("${assets_root}"@));
    assert(is_placeholder("${assets_index_name}"@));
    assert(is_placeholder("${auth_uuid}"@));
    assert(is_placeholder("${auth_access_token}"@));
    assert(is_placeholder("${clientid}"@));
    assert(is_placeholder("${auth_xuid}"@));
    assert(is_placeholder("${version_type}"@));
    assert(is_placeholder("${resolution_width}"@));
    assert(is_placeholder("${resolution_height}"@));
    assert(is_placeholder("${quickPlayPath}"@));
    assert(is_placeholder("${quickPlaySingleplayer}"@));
    assert(is_placeholder("${quickPlayMultiplayer}"@));
    assert(is_placeholder("${quickPlayRealms}"@));
    if no_dollar(g.quick_play_multiplayer) {
        lemma_replaced_other_placeholder("${quickPlayMultiplayer}"@, "${auth_player_name}"@, g.player_name);
        lemma_replaced_other_placeholder("${quickPlayMultiplayer}"@, "${version_name}"@, g.version_name);
        lemma_replaced_other_placeholder("${quickPlayMultiplayer}"@, "${game_directory}"@, g.game_directory);
        lemma_replaced_other_placeholder("${quickPlayMultiplayer}"@, "${assets_root}"@, g.assets_root);
        lemma_replaced_other_placeholder("${quickPlayMultiplayer}"@, "${assets_index_name}"@, g.assets_index_name);
        lemma_replaced_other_placeholder("${quickPlayMultiplayer}"@, "${auth_uuid}"@, g.uuid);
        lemma_replaced_other_placeholder("${quickPlayMultiplayer}"@, "${auth_access_token}"@, g.access_token);
        lemma_replaced_other_placeholder("${quickPlayMultiplayer}"@, "${clientid}"@, g.client_id);
        lemma_replaced_other_placeholder("${quickPlayMultiplayer}"@, "${auth_xuid}"@, g.xuid);
        lemma_replaced_other_placeholder("${quickPlayMultiplayer}"@, "${version_type}"@, g.version_type);
        lemma_replaced_other_placeholder("${quickPlayMultiplayer}"@, "${resolution_width}"@, g.resolution_width);
        lemma_replaced_other_placeholder("${quickPlayMultiplayer}"@, "${resolution_height}"@, g.resolution_height);
        lemma_replaced_other_placeholder("${quickPlayMultiplayer}"@, "${quickPlayPath}"@, g.quick_play_path);
        lemma_replaced_other_placeholder("${quickPlayMultiplayer}"@, "${quickPlaySingleplayer}"@, g.quick_play_singleplayer);
        lemma_replaced_whole("${quickPlayMultiplayer}"@, g.quick_play_multiplayer);
        lemma_replaced_no_dollar(g.quick_play_multiplayer, "${quickPlayRealms}"@, g.quick_play_realms);
    }
}

proof fn lemma_game_placeholder_filled_15(g: GameInfoView)
    ensures
        no_dollar(g.quick_play_realms) ==> game_substituted("${quickPlayRealms}"@, g) == g.quick_play_realms,
{
    reveal_strlit("${auth_player_name}");
    reveal_strlit("${version_name}");
    reveal_strlit("${game_directory}");
    reveal_strlit("${assets_root}");
    reveal_strlit("${assets_index_name}");
    reveal_strlit("${auth_uuid}");
    reveal_strlit("${auth_access_token}");
    reveal_strlit("${clientid}");
    reveal_strlit("${auth_xuid}");
    reveal_strlit("${version_type}");
    reveal_strlit("${resolution_width}");
    reveal_strlit("${resolution_height}");
    reveal_strlit("${quickPlayPath}");
    reveal_strlit("${quickPlaySingleplayer}");
    reveal_strlit("${quickPlayMultiplayer}");
    reveal_strlit("${quickPlayRealms}");
    assert(is_placeholder("${auth_player_name}"@));
    assert(is_placeholder("${version_name}"@));
    assert(is_placeholder("${game_directory}"@));
    assert(is_placeholder("${assets_root}"@));
    assert(is_placeholder("${assets_index_name}"@));
    assert(is_placeholder("${auth_uuid}"@));
    assert(is_placeholder("${auth_access_token}"@));
    assert(is_placeholder("${clientid}"@));
    assert(is_placeholder("${auth_xuid}"@));
    assert(is_placeholder("${version_type}"@));
    assert(is_placeholder("${resolution_width}"@));
    assert(is_placeholder("${resolution_height}"@));
    assert(is_placeholder("${quickPlayPath}"@));
    assert(is_placeholder("${quickPlaySingleplayer}"@));
    assert(is_placeholder("${quickPlayMultiplayer}"@));
    assert(is_placeholder("${quickPlayRealms}"@));
    if no_dollar(g.quick_play_realms) {
        lemma_replaced_other_placeholder("${quickPlayRealms}"@, "${auth_player_name}"@, g.player_name);
        lemma_replaced_other_placeholder("${quickPlayRealms}"@, "${version_name}"@, g.version_name);
        lemma_replaced_other_placeholder("${quickPlayRealms}"@, "${game_directory}"@, g.game_directory);
        lemma_replaced_other_placeholder("${quickPlayRealms}"@, "${assets_root}"@, g.assets_root);
        lemma_replaced_other_placeholder("${quickPlayRealms}"@, "${assets_index_name}"@, g.assets_index_name);
        lemma_replaced_other_placeholder("${quickPlayRealms}"@, "${auth_uuid}"@, g.uuid);
        lemma_replaced_other_placeholder("${quickPlayRealms}"@, "${auth_access_token}"@, g.access_token);
        lemma_replaced_other_placeholder("${quickPlayRealms}"@, "${clientid}"@, g.client_id);
        lemma_replaced_other_placeholder("${quickPlayRealms}"@, "${auth_xuid}"@, g.xuid);
        lemma_replaced_other_placeholder("${quickPlayRealms}"@, "${version_type}"@, g.version_type);
        lemma_replaced_other_placeholder("${quickPlayRealms}"@, "${resolution_width}"@, g.resolution_width);
        lemma_replaced_other_placeholder("${quickPlayRealms}"@, "${resolution_height}"@, g.resolution_height);
        lemma_replaced_other_placeholder("${quickPlayRealms}"@, "${quickPlayPath}"@, g.quick_play_path);
        lemma_replaced_other_placeholder("${quickPlayRealms}"@, "${quickPlaySingleplayer}"@, g.quick_play_singleplayer);
        lemma_replaced_other_placeholder("${quickPlayRealms}"@, "${quickPlayMultiplayer}"@, g.quick_play_multiplayer);
        lemma_replaced_whole("${quickPlayRealms}"@, g.quick_play_realms);
    }
}

/// Filling a JVM argument puts each value where its placeholder stands: a
/// template that is exactly one placeholder becomes that value (when the
/// value itself holds no `$`).
pub proof fn lemma_jvm_placeholders_filled(
    launcher_name: Seq<char>,
    launcher_version: Seq<char>,
    classpath: Seq<char>,
    natives_directory: Seq<char>,
)
    ensures
        no_dollar(launcher_name) ==> jvm_substituted("${launcher_name}"@, launcher_name, launcher_version, classpath, natives_directory) == launcher_name,
        no_dollar(launcher_version) ==> jvm_substituted("${launcher_version}"@, launcher_name, launcher_version, classpath, natives_directory) == launcher_version,
        no_dollar(classpath) ==> jvm_substituted("${classpath}"@, launcher_name, launcher_version, classpath, natives_directory) == classpath,
        no_dollar(natives_directory) ==> jvm_substituted("${natives_directory}"@, launcher_name, launcher_version, classpath, natives_directory) == natives_directory,
{
    reveal_strlit("${launcher_name}");
    reveal_strlit("${launcher_version}");
    reveal_strlit("${classpath}");
    reveal_strlit("${natives_directory}");
    assert(is_placeholder("${launcher_name}"@));
    assert(is_placeholder("${launcher_version}"@));
    assert(is_placeholder("${classpath}"@));
    assert(is_placeholder("${natives_directory}"@));
    if no_dollar(launcher_name) {
        lemma_replaced_whole("${launcher_name}"@, launcher_name);
        lemma_replaced_no_dollar(launcher_name, "${launcher_version}"@, launcher_version);
        lemma_replaced_no_dollar(launcher_name, "${classpath}"@, classpath);
        lemma_replaced_no_dollar(launcher_name, "${natives_directory}"@, natives_directory);
    }
    if no_dollar(launcher_version) {
        lemma_replaced_other_placeholder("${launcher_version}"@, "${launcher_name}"@, launcher_name);
        lemma_replaced_whole("${launcher_version}"@, launcher_version);
        lemma_replaced_no_dollar(launcher_version, "${classpath}"@, classpath);
        lemma_replaced_no_dollar(launcher_version, "${natives_directory}"@, natives_directory);
    }
    if no_dollar(classpath) {
        lemma_replaced_other_placeholder("${classpath}"@, "${launcher_name}"@, launcher_name);
        lemma_replaced_other_placeholder("${classpath}"@, "${launcher_version}"@, launcher_version);
        lemma_replaced_whole("${classpath}"@, classpath);
        lemma_replaced_no_dollar(classpath, "${natives_directory}"@, natives_directory);
    }
    if no_dollar(natives_directory) {
        lemma_replaced_other_placeholder("${natives_directory}"@, "${launcher_name}"@, launcher_name);
        lemma_replaced_other_placeholder("${natives_directory}"@, "${launcher_version}"@, launcher_version);
        lemma_replaced_other_placeholder("${natives_directory}"@, "${classpath}"@, classpath);
        lemma_replaced_whole("${natives_directory}"@, natives_directory);
    }
}

/// The launch fills the game placeholders from the manifest and the game
/// directory: version id, game directory, `assets` under it, asset index id,
/// version type, a fixed player name, the nil id, the `null` token, an
/// 854x480 window, and empty client id, XUID and quick-play values.
pub proof fn lemma_launch_game_values(m: MinecraftManifest, base: Seq<char>, windows: bool)
    ensures
        ({
            let g = launch_game_info(m, base, windows);
            &&& game_substituted("${auth_player_name}"@, g) == "Fr0ymi"@
            &&& no_dollar(m.id@) ==> game_substituted("${version_name}"@, g) == m.id@
            &&& no_dollar(base) ==> game_substituted("${game_directory}"@, g) == base
            &&& no_dollar(joined_path(base, "assets"@, windows)) ==> game_substituted("${assets_root}"@, g)
                == joined_path(base, "assets"@, windows)
            &&& no_dollar(m.asset_index.id@) ==> game_substituted("${assets_index_name}"@, g)
                == m.asset_index.id@
            &&& game_substituted("${auth_uuid}"@, g) == "00000000-0000-0000-0000-000000000000"@
            &&& game_substituted("${auth_access_token}"@, g) == "null"@
            &&& game_substituted("${clientid}"@, g) == Seq::<char>::empty()
            &&& game_substituted("${auth_xuid}"@, g) == Seq::<char>::empty()
            &&& no_dollar(m.version_type@) ==> game_substituted("${version_type}"@, g) == m.version_type@
            &&& game_substituted("${resolution_width}"@, g) == "854"@
            &&& game_substituted("${resolution_height}"@, g) == "480"@
            &&& game_substituted("${quickPlayPath}"@, g) == Seq::<char>::empty()
            &&& game_substituted("${quickPlaySingleplayer}"@, g) == Seq::<char>::empty()
            &&& game_substituted("${quickPlayMultiplayer}"@, g) == Seq::<char>::empty()
            &&& game_substituted("${quickPlayRealms}"@, g) == Seq::<char>::empty()
        }),
{
    reveal_strlit("Fr0ymi");
    reveal_strlit("00000000-0000-0000-0000-000000000000");
    reveal_strlit("null");
    reveal_strlit("854");
    reveal_strlit("480");
    reveal_strlit("");
    let g = launch_game_info(m, base, windows);
    assert(no_dollar("Fr0ymi"@));
    assert(no_dollar("00000000-0000-0000-0000-000000000000"@));
    assert(no_dollar("null"@));
    assert(no_dollar("854"@));
    assert(no_dollar("480"@));
    assert(""@ =~= Seq::<char>::empty());
    lemma_game_placeholders_filled(g);
}

/// Selecting arguments from two lists one after the other gives the
/// selections one after the other: templates are taken in order, each on
/// its own.
pub proof fn lemma_selected_arguments_append(a: Seq<Argument>, b: Seq<Argument>, ctx: ContextView)
    ensures
        selected_arguments(a + b, ctx) == selected_arguments(a, ctx) + selected_arguments(b, ctx),
    decreases b.len(),
{
    if b.len() == 0 {
        assert(a + b =~= a);
        assert(selected_arguments(a, ctx) + Seq::<Seq<char>>::empty() =~= selected_arguments(a, ctx));
    } else {
        lemma_selected_arguments_append(a, b.drop_last(), ctx);
        assert((a + b).drop_last() =~= a + b.drop_last());
        assert((a + b).last() == b.last());
        assert(selected_arguments(a, ctx) + selected_arguments(b.drop_last(), ctx) + argument_strings(
            b.last(),
            ctx,
        ) =~= selected_arguments(a, ctx) + (selected_arguments(b.drop_last(), ctx) + argument_strings(
            b.last(),
            ctx,
        )));
    }
}

/// A plain template is always taken as it stands; a conditional one is
/// taken, all its values in order, exactly when its rules admit it.
pub proof fn lemma_argument_strings_cases(a: Argument, ctx: ContextView)
    ensures
        a matches Argument::Plain(s) ==> selected_arguments(seq![a], ctx) == seq![s@],
        a matches Argument::Conditional { rules, value } ==> selected_arguments(seq![a], ctx) == if compatible(
            owned_rules_view(rules),
            ctx,
        ) {
            value_strings(value)
        } else {
            Seq::<Seq<char>>::empty()
        },
{
    let one = seq![a];
    assert(one.drop_last() =~= Seq::<Argument>::empty());
    assert(one.last() == a);
    assert(selected_arguments(Seq::<Argument>::empty(), ctx) == Seq::<Seq<char>>::empty());
    assert(selected_arguments(one, ctx) == selected_arguments(one.drop_last(), ctx) + argument_strings(
        a,
        ctx,
    ));
    assert(Seq::<Seq<char>>::empty() + argument_strings(a, ctx) =~= argument_strings(a, ctx));
}

/// The libraries kept for a host are exactly the admitted ones, in manifest
/// order: each kept library is admitted, and filtering two lists one after
/// the other gives the two results one after the other.
pub proof fn lemma_compatible_libraries(a: Seq<LibraryInfo>, b: Seq<LibraryInfo>, ctx: ContextView)
    ensures
        compatible_libraries(a + b, ctx) == compatible_libraries(a, ctx) + compatible_libraries(b, ctx),
        forall|i: int|
            0 <= i < compatible_libraries(a, ctx).len() ==> compatible(
                owned_rules_view(#[trigger] compatible_libraries(a, ctx)[i].rules),
                ctx,
            ),
        forall|l: LibraryInfo| compatible(owned_rules_view(l.rules), ctx) ==> compatible_libraries(seq![l], ctx)
            == seq![l],
        forall|l: LibraryInfo| !compatible(owned_rules_view(l.rules), ctx) ==> compatible_libraries(seq![l], ctx)
            == Seq::<LibraryInfo>::empty(),
    decreases b.len(),
{
    lemma_compatible_libraries_admitted(a, ctx);
    assert forall|l: LibraryInfo| compatible(owned_rules_view(l.rules), ctx) implies compatible_libraries(
        seq![l],
        ctx,
    ) == seq![l] by {
        assert(seq![l].drop_last() =~= Seq::<LibraryInfo>::empty());
        assert(seq![l].last() == l);
        assert(compatible_libraries(Seq::<LibraryInfo>::empty(), ctx) == Seq::<LibraryInfo>::empty());
        assert(Seq::<LibraryInfo>::empty().push(l) =~= seq![l]);
    }
    assert forall|l: LibraryInfo| !compatible(owned_rules_view(l.rules), ctx) implies compatible_libraries(
        seq![l],
        ctx,
    ) == Seq::<LibraryInfo>::empty() by {
        assert(seq![l].drop_last() =~= Seq::<LibraryInfo>::empty());
        assert(seq![l].last() == l);
        assert(compatible_libraries(Seq::<LibraryInfo>::empty(), ctx) == Seq::<LibraryInfo>::empty());
    }
    if b.len() == 0 {
        assert(a + b =~= a);
        assert(compatible_libraries(a, ctx) + Seq::<LibraryInfo>::empty() =~= compatible_libraries(a, ctx));
    } else {
        lemma_compatible_libraries(a, b.drop_last(), ctx);
        assert((a + b).drop_last() =~= a + b.drop_last());
        assert((a + b).last() == b.last());
        let x = compatible_libraries(a, ctx);
        let y = compatible_libraries(b.drop_last(), ctx);
        assert((x + y).push(b.last()) =~= x + y.push(b.last()));
    }
}

proof fn lemma_compatible_libraries_admitted(a: Seq<LibraryInfo>, ctx: ContextView)
    ensures
        forall|i: int|
            0 <= i < compatible_libraries(a, ctx).len() ==> compatible(
                owned_rules_view(#[trigger] compatible_libraries(a, ctx)[i].rules),
                ctx,
            ),
    decreases a.len(),
{
    if a.len() > 0 {
        lemma_compatible_libraries_admitted(a.drop_last(), ctx);
        let prev = compatible_libraries(a.drop_last(), ctx);
        assert forall|i: int| 0 <= i < compatible_libraries(a, ctx).len() implies compatible(
            owned_rules_view(#[trigger] compatible_libraries(a, ctx)[i].rules),
            ctx,
        ) by {
            if i < prev.len() {
                assert(compatible_libraries(a, ctx)[i] == prev[i]);
            }
        }
    }
}

/// A JVM argument without any `$` is passed on unchanged.
pub proof fn lemma_jvm_argument_without_placeholder(
    s: Seq<char>,
    launcher_name: Seq<char>,
    launcher_version: Seq<char>,
    classpath: Seq<char>,
    natives_directory: Seq<char>,
)
    requires
        forall|i: int| 0 <= i < s.len() ==> s[i] != '$',
    ensures
        jvm_substituted(s, launcher_name, launcher_version, classpath, natives_directory) == s,
{
    reveal_strlit("${launcher_name}");
    reveal_strlit("${launcher_version}");
    reveal_strlit("${classpath}");
    reveal_strlit("${natives_directory}");
    lemma_replaced_without_lead_char(s, "${launcher_name}"@, launcher_name);
    lemma_replaced_without_lead_char(s, "${launcher_version}"@, launcher_version);
    lemma_replaced_without_lead_char(s, "${classpath}"@, classpath);
    lemma_replaced_without_lead_char(s, "${natives_directory}"@, natives_directory);
}

/// A JVM argument template with its placeholders filled in.
pub open spec fn jvm_substituted(
    s: Seq<char>,
    launcher_name: Seq<char>,
    launcher_version: Seq<char>,
    classpath: Seq<char>,
    natives_directory: Seq<char>,
) -> Seq<char> {
    let s1 = replaced(s, "${launcher_name}"@, launcher_name);
    let s2 = replaced(s1, "${launcher_version}"@, launcher_version);
    let s3 = replaced(s2, "${classpath}"@, classpath);
    replaced(s3, "${natives_directory}"@, natives_directory)
}

/// The views of a list of strings.
pub open spec fn strings_view(v: Seq<String>) -> Seq<Seq<char>> {
    v.map_values(|s: String| s@)
}

/// The view of optional owned rules.
pub open spec fn owned_rules_view(r: Option<Vec<Rules>>) -> Option<Seq<Rules>> {
    match r {
        Some(v) => Some(v@),
        None => None,
    }
}

/// The strings of an argument value.
pub open spec fn value_strings(v: ArgumentValue) -> Seq<Seq<char>> {
    match v {
        ArgumentValue::Single(s) => seq![s@],
        ArgumentValue::List(l) => strings_view(l@),
    }
}

/// The strings that an argument template contributes in `ctx`: a plain one
/// always, a conditional one only when its rules admit it.
pub open spec fn argument_strings(a: Argument, ctx: ContextView) -> Seq<Seq<char>> {
    match a {
        Argument::Plain(s) => seq![s@],
        Argument::Conditional { rules, value } => if compatible(owned_rules_view(rules), ctx) {
            value_strings(value)
        } else {
            Seq::empty()
        },
    }
}

/// The strings that the argument templates `args` contribute in `ctx`, in order.
pub open spec fn selected_arguments(args: Seq<Argument>, ctx: ContextView) -> Seq<Seq<char>>
    decreases args.len(),
{
    if args.len() == 0 {
        Seq::empty()
    } else {
        selected_arguments(args.drop_last(), ctx) + argument_strings(args.last(), ctx)
    }
}

/// The libraries whose rules admit them in `ctx`, in order.
pub open spec fn compatible_libraries(libs: Seq<LibraryInfo>, ctx: ContextView) -> Seq<LibraryInfo>
    decreases libs.len(),
{
    if libs.len() == 0 {
        Seq::empty()
    } else if compatible(owned_rules_view(libs.last().rules), ctx) {
        compatible_libraries(libs.drop_last(), ctx).push(libs.last())
    } else {
        compatible_libraries(libs.drop_last(), ctx)
    }
}

/// Where a library lies under the game directory `base`.
pub open spec fn library_path(base: Seq<char>, lib: LibraryInfo, windows: bool) -> Seq<char> {
    joined_path(joined_path(base, "libraries"@, windows), lib.downloads.artifact.path@, windows)
}

/// The directory of a version under the game directory `base`.
pub open spec fn version_dir(base: Seq<char>, id: Seq<char>, windows: bool) -> Seq<char> {
    joined_path(joined_path(base, "versions"@, windows), id, windows)
}

/// Where the client jar of version `id` lies.
pub open spec fn version_jar_path(base: Seq<char>, id: Seq<char>, windows: bool) -> Seq<char> {
    joined_path(version_dir(base, id, windows), id + ".jar"@, windows)
}

/// Where the logging configuration of a version lies.
pub open spec fn log_config_path(base: Seq<char>, m: MinecraftManifest, windows: bool) -> Seq<char> {
    joined_path(
        joined_path(joined_path(base, "assets"@, windows), "log-configs"@, windows),
        m.logging.client.file.id@,
        windows,
    )
}

/// The logging argument: the manifest's template with `${path}` replaced by
/// the path of the logging configuration.
pub open spec fn logging_argument(m: MinecraftManifest, base: Seq<char>, windows: bool) -> Seq<char> {
    replaced(m.logging.client.argument@, "${path}"@, log_config_path(base, m, windows))
}

/// The separator between class path entries.
pub open spec fn classpath_separator(windows: bool) -> Seq<char> {
    if windows {
        ";"@
    } else {
        ":"@
    }
}

/// The entries of the class path: the admitted libraries, then the client jar.
pub open spec fn classpath_entries(m: MinecraftManifest, base: Seq<char>, host: HostInfo) -> Seq<
    Seq<char>,
> {
    let w = is_windows(host.os@);
    compatible_libraries(m.libraries@, context_on(host, no_features())).map_values(
        |l: LibraryInfo| library_path(base, l, w),
    ).push(version_jar_path(base, m.id@, w))
}

/// The class path.
pub open spec fn classpath_of(m: MinecraftManifest, base: Seq<char>, host: HostInfo) -> Seq<char> {
    joined_with(classpath_entries(m, base, host), classpath_separator(is_windows(host.os@)))
}

/// The JVM arguments: the admitted templates filled in, then the logging argument.
pub open spec fn jvm_argument_list(
    m: MinecraftManifest,
    base: Seq<char>,
    launcher_name: Seq<char>,
    launcher_version: Seq<char>,
    classpath: Seq<char>,
    natives_directory: Seq<char>,
    host: HostInfo,
) -> Seq<Seq<char>> {
    selected_arguments(m.arguments.jvm@, context_on(host, no_features())).map_values(
        |s: Seq<char>| jvm_substituted(s, launcher_name, launcher_version, classpath, natives_directory),
    ).push(logging_argument(m, base, is_windows(host.os@)))
}

/// The default user JVM arguments: the admitted templates, unchanged.
pub open spec fn default_user_jvm_argument_list(m: MinecraftManifest, host: HostInfo) -> Seq<Seq<char>> {
    selected_arguments(m.arguments.default_user_jvm@, context_on(host, no_features()))
}

/// The game arguments: the templates admitted for `features`, filled in from `g`.
pub open spec fn game_argument_list(
    m: MinecraftManifest,
    g: GameInfoView,
    features: LaunchFeatures,
    host: HostInfo,
) -> Seq<Seq<char>> {
    selected_arguments(m.arguments.game@, context_on(host, features)).map_values(
        |s: Seq<char>| game_substituted(s, g),
    )
}

/// Bundles the values of the game placeholders.
pub fn get_game_info<'a>(
    player_name: &'a str,
    version_name: &'a str,
    game_directory: &'a str,
    assets_root: &'a str,
    assets_index_name: &'a str,
    uuid: &'a str,
    access_token: &'a str,
    client_id: &'a str,
    xuid: &'a str,
    version_type: &'a str,
    resolution_width: &'a str,
    resolution_height: &'a str,
    quick_play_path: &'a str,
    quick_play_singleplayer: &'a str,
    quick_play_multiplayer: &'a str,
    quick_play_realms: &'a str,
) -> (r: GameInfo<'a>)
    ensures
        r@ == (GameInfoView {
            player_name: player_name@,
            version_name: version_name@,
            game_directory: game_directory@,
            assets_root: assets_root@,
            assets_index_name: assets_index_name@,
            uuid: uuid@,
            access_token: access_token@,
            client_id: client_id@,
            xuid: xuid@,
            version_type: version_type@,
            resolution_width: resolution_width@,
            resolution_height: resolution_height@,
            quick_play_path: quick_play_path@,
            quick_play_singleplayer: quick_play_singleplayer@,
            quick_play_multiplayer: quick_play_multiplayer@,
            quick_play_realms: quick_play_realms@,
        }),
{
    GameInfo {
        player_name,
        version_name,
        game_directory,
        assets_root,
        assets_index_name,
        uuid,
        access_token,
        client_id,
        xuid,
        version_type,
        resolution_width,
        resolution_height,
        quick_play_path,
        quick_play_singleplayer,
        quick_play_multiplayer,
        quick_play_realms,
    }
}

/// A game argument template with its placeholders filled in (see [`game_substituted`]).
pub fn reform_game_argument(argument: &str, game_info: &GameInfo) -> (r: String)
    ensures
        r@ == game_substituted(argument@, game_info@),
{
    let s1 = replace_all(argument, "${auth_player_name}", game_info.player_name);
    let s2 = replace_all(s1.as_str(), "${version_name}", game_info.version_name);
    let s3 = replace_all(s2.as_str(), "${game_directory}", game_info.game_directory);
    let s4 = replace_all(s3.as_str(), "${assets_root}", game_info.assets_root);
    let s5 = replace_all(s4.as_str(), "${assets_index_name}", game_info.assets_index_name);
    let s6 = replace_all(s5.as_str(), "${auth_uuid}", game_info.uuid);
    let s7 = replace_all(s6.as_str(), "${auth_access_token}", game_info.access_token);
    let s8 = replace_all(s7.as_str(), "${clientid}", game_info.client_id);
    let s9 = replace_all(s8.as_str(), "${auth_xuid}", game_info.xuid);
    let s10 = replace_all(s9.as_str(), "${version_type}", game_info.version_type);
    let s11 = replace_all(s10.as_str(), "${resolution_width}", game_info.resolution_width);
    let s12 = replace_all(s11.as_str(), "${resolution_height}", game_info.resolution_height);
    let s13 = replace_all(s12.as_str(), "${quickPlayPath}", game_info.quick_play_path);
    let s14 = replace_all(
        s13.as_str(),
        "${quickPlaySingleplayer}",
        game_info.quick_play_singleplayer,
    );
    let s15 = replace_all(s14.as_str(), "${quickPlayMultiplayer}", game_info.quick_play_multiplayer);
    replace_all(s15.as_str(), "${quickPlayRealms}", game_info.quick_play_realms)
}

fn jvm_substitute(
    s: &str,
    launcher_name: &str,
    launcher_version: &str,
    classpath: &str,
    natives_directory: &str,
) -> (r: String)
    ensures
        r@ == jvm_substituted(s@, launcher_name@, launcher_version@, classpath@, natives_directory@),
{
    let s1 = replace_all(s, "${launcher_name}", launcher_name);
    let s2 = replace_all(s1.as_str(), "${launcher_version}", launcher_version);
    let s3 = replace_all(s2.as_str(), "${classpath}", classpath);
    replace_all(s3.as_str(), "${natives_directory}", natives_directory)
}

/// Whether optional owned rules admit something in `context`.
pub fn rules_admit(rules: &Option<Vec<Rules>>, context: &crate::rules::CompatibilityContext) -> (r: bool)
    ensures
        r == compatible(owned_rules_view(*rules), context@),
{
    match rules {
        Some(v) => is_compatible(Some(v.as_slice()), context),
        None => is_compatible(None, context),
    }
}

proof fn lemma_strings_view_push(v: Seq<String>, x: String)
    ensures
        strings_view(v.push(x)) == strings_view(v).push(x@),
{
    assert(strings_view(v.push(x)) =~= strings_view(v).push(x@));
}

proof fn lemma_map_take_push<A, B>(s: Seq<A>, i: int, f: spec_fn(A) -> B)
    requires
        0 <= i < s.len(),
    ensures
        s.take(i + 1).map_values(f) == s.take(i).map_values(f).push(f(s[i])),
{
    assert(s.take(i + 1).map_values(f) =~= s.take(i).map_values(f).push(f(s[i])));
}

fn push_strings(out: &mut Vec<String>, src: &Vec<String>)
    ensures
        strings_view(final(out)@) == strings_view(old(out)@) + strings_view(src@),
{
    let n = src.len();
    for i in 0..n
        invariant
            n == src@.len(),
            strings_view(out@) == strings_view(old(out)@) + strings_view(src@.take(i as int)),
    {
        let ghost before = out@;
        let c = src[i].clone();
        out.push(c);
        proof {
            lemma_strings_view_push(before, c);
            assert(strings_view(src@.take(i + 1)) =~= strings_view(src@.take(i as int)).push(
                src@[i as int]@,
            ));
            assert(strings_view(out@) =~= strings_view(old(out)@) + strings_view(src@.take(i + 1)));
        }
    }
    assert(src@.take(n as int) =~= src@);
}

/// The strings that the argument templates contribute in `context`, in order.
pub fn select_arguments(args: &Vec<Argument>, context: &crate::rules::CompatibilityContext) -> (r:
    Vec<String>)
    ensures
        strings_view(r@) == selected_arguments(args@, context@),
{
    let mut out: Vec<String> = Vec::new();
    let n = args.len();
    assert(args@.take(0) =~= Seq::<Argument>::empty());
    for i in 0..n
        invariant
            n == args@.len(),
            strings_view(out@) == selected_arguments(args@.take(i as int), context@),
    {
        assert(args@.take(i + 1).drop_last() =~= args@.take(i as int));
        assert(args@.take(i + 1).last() == args@[i as int]);
        let ghost before = strings_view(out@);
        match &args[i] {
            Argument::Plain(s) => {
                out.push(s.clone());
                assert(strings_view(out@) =~= before + seq![s@]);
            },
            Argument::Conditional { rules, value } => {
                if rules_admit(rules, context) {
                    match value {
                        ArgumentValue::Single(s) => {
                            out.push(s.clone());
                            assert(strings_view(out@) =~= before + seq![s@]);
                        },
                        ArgumentValue::List(l) => {
                            push_strings(&mut out, l);
                        },
                    }
                } else {
                    assert(strings_view(out@) =~= before + Seq::<Seq<char>>::empty());
                }
            },
        }
    }
    assert(args@.take(n as int) =~= args@);
    out
}

/// The logging argument of a version (see [`logging_argument`]).
pub fn get_logging_argument(minecraft_manifest: &MinecraftManifest, base_dir: &str, windows: bool) -> (r:
    String)
    ensures
        r@ == logging_argument(*minecraft_manifest, base_dir@, windows),
{
    let assets = join_path(base_dir, "assets", windows);
    let configs = join_path(assets.as_str(), "log-configs", windows);
    let path = join_path(configs.as_str(), minecraft_manifest.logging.client.file.id.as_str(), windows);
    replace_all(minecraft_manifest.logging.client.argument.as_str(), "${path}", path.as_str())
}

/// The JVM arguments of a version (see [`jvm_argument_list`]).
pub fn form_jvm_arguments(
    minecraft_manifest: &MinecraftManifest,
    base_dir: &str,
    launcher_name: &str,
    launcher_version: &str,
    classpath: &str,
    natives_directory: &str,
    host: &HostInfo,
) -> (r: Vec<String>)
    ensures
        strings_view(r@) == jvm_argument_list(
            *minecraft_manifest,
            base_dir@,
            launcher_name@,
            launcher_version@,
            classpath@,
            natives_directory@,
            *host,
        ),
{
    let features = LaunchFeatures::default();
    let context = context_for(host, features);
    assert(features == no_features());
    let raw = select_arguments(&minecraft_manifest.arguments.jvm, &context);
    let ghost sel = strings_view(raw@);
    let mut out: Vec<String> = Vec::new();
    let n = raw.len();
    for i in 0..n
        invariant
            n == raw@.len(),
            sel == strings_view(raw@),
            strings_view(out@) == sel.take(i as int).map_values(
                |s: Seq<char>|
                    jvm_substituted(s, launcher_name@, launcher_version@, classpath@, natives_directory@),
            ),
    {
        let a = jvm_substitute(
            raw[i].as_str(),
            launcher_name,
            launcher_version,
            classpath,
            natives_directory,
        );
        let ghost before = out@;
        out.push(a);
        proof {
            let f = |s: Seq<char>|
                jvm_substituted(s, launcher_name@, launcher_version@, classpath@, natives_directory@);
            lemma_strings_view_push(before, a);
            lemma_map_take_push(sel, i as int, f);
            assert(sel[i as int] == raw@[i as int]@);
        }
    }
    assert(sel.take(n as int) =~= sel);
    let windows = windows_host(host.os.as_str());
    let logging = get_logging_argument(minecraft_manifest, base_dir, windows);
    out.push(logging);
    assert(strings_view(out@) =~= jvm_argument_list(
        *minecraft_manifest,
        base_dir@,
        launcher_name@,
        launcher_version@,
        classpath@,
        natives_directory@,
        *host,
    ));
    out
}

/// The default user JVM arguments of a version (see [`default_user_jvm_argument_list`]).
pub fn form_default_user_jvm_arguments(minecraft_manifest: &MinecraftManifest, host: &HostInfo) -> (r:
    Vec<String>)
    ensures
        strings_view(r@) == default_user_jvm_argument_list(*minecraft_manifest, *host),
{
    let features = LaunchFeatures::default();
    let context = context_for(host, features);
    assert(features == no_features());
    select_arguments(&minecraft_manifest.arguments.default_user_jvm, &context)
}

/// The game arguments of a version (see [`game_argument_list`]).
pub fn form_game_arguments(
    minecraft_manifest: &MinecraftManifest,
    game_info: &GameInfo,
    features: &LaunchFeatures,
    host: &HostInfo,
) -> (r: Vec<String>)
    ensures
        strings_view(r@) == game_argument_list(*minecraft_manifest, game_info@, *features, *host),
{
    let context = context_for(host, *features);
    let raw = select_arguments(&minecraft_manifest.arguments.game, &context);
    let ghost sel = strings_view(raw@);
    let mut out: Vec<String> = Vec::new();
    let n = raw.len();
    for i in 0..n
        invariant
            n == raw@.len(),
            sel == strings_view(raw@),
            strings_view(out@) == sel.take(i as int).map_values(
                |s: Seq<char>| game_substituted(s, game_info@),
            ),
    {
        let a = reform_game_argument(raw[i].as_str(), game_info);
        let ghost before = out@;
        out.push(a);
        proof {
            let f = |s: Seq<char>| game_substituted(s, game_info@);
            lemma_strings_view_push(before, a);
            lemma_map_take_push(sel, i as int, f);
            assert(sel[i as int] == raw@[i as int]@);
        }
    }
    assert(sel.take(n as int) =~= sel);
    out
}

/// The class path of a version (see [`classpath_of`]).
pub fn form_classpath(minecraft_manifest: &MinecraftManifest, base_dir: &str, host: &HostInfo) -> (r:
    String)
    ensures
        r@ == classpath_of(*minecraft_manifest, base_dir@, *host),
{
    let windows = windows_host(host.os.as_str());
    let features = LaunchFeatures::default();
    let context = context_for(host, features);
    assert(features == no_features());
    let ghost ctx = context@;
    let libs = &minecraft_manifest.libraries;
    let libraries_dir = join_path(base_dir, "libraries", windows);
    let mut paths: Vec<String> = Vec::new();
    let n = libs.len();
    assert(libs@.take(0) =~= Seq::<LibraryInfo>::empty());
    for i in 0..n
        invariant
            n == libs@.len(),
            ctx == context@,
            windows == is_windows(host.os@),
            libraries_dir@ == joined_path(base_dir@, "libraries"@, windows),
            strings_view(paths@) == compatible_libraries(libs@.take(i as int), ctx).map_values(
                |l: LibraryInfo| library_path(base_dir@, l, windows),
            ),
    {
        assert(libs@.take(i + 1).drop_last() =~= libs@.take(i as int));
        assert(libs@.take(i + 1).last() == libs@[i as int]);
        let lib = &libs[i];
        if rules_admit(&lib.rules, &context) {
            let p = join_path(libraries_dir.as_str(), lib.downloads.artifact.path.as_str(), windows);
            let ghost before = paths@;
            paths.push(p);
            proof {
                lemma_strings_view_push(before, p);
                let f = |l: LibraryInfo| library_path(base_dir@, l, windows);
                let prev = compatible_libraries(libs@.take(i as int), ctx);
                assert(prev.push(libs@[i as int]).map_values(f) =~= prev.map_values(f).push(
                    f(libs@[i as int]),
                ));
            }
        }
    }
    assert(libs@.take(n as int) =~= libs@);
    let versions = join_path(base_dir, "versions", windows);
    let dir = join_path(versions.as_str(), minecraft_manifest.id.as_str(), windows);
    let jar_name = concatenated(minecraft_manifest.id.as_str(), ".jar");
    let jar = join_path(dir.as_str(), jar_name.as_str(), windows);
    paths.push(jar);
    let sep = if windows {
        ";"
    } else {
        ":"
    };
    assert(strings_view(paths@) =~= classpath_entries(*minecraft_manifest, base_dir@, *host));
    join_strings(&paths, sep)
}

/// What it takes to start the game: the program, its arguments in order and
/// the directory to run it in.
pub struct LaunchPlan {
    pub program: String,
    pub arguments: Vec<String>,
    pub working_directory: String,
}

/// The Java executable that the launcher starts.
pub open spec fn java_program() -> Seq<char> {
    "C:\\Program Files\\Eclipse Adoptium\\jdk-25.0.4.101-hotspot\\bin\\java.exe"@
}

/// The placeholder values of a launch from the game directory `base`: an
/// offline player with a fixed name and nil id, an 854x480 window.
pub open spec fn launch_game_info(m: MinecraftManifest, base: Seq<char>, windows: bool) -> GameInfoView {
    GameInfoView {
        player_name: "Fr0ymi"@,
        version_name: m.id@,
        game_directory: base,
        assets_root: joined_path(base, "assets"@, windows),
        assets_index_name: m.asset_index.id@,
        uuid: "00000000-0000-0000-0000-000000000000"@,
        access_token: "null"@,
        client_id: ""@,
        xuid: ""@,
        version_type: m.version_type@,
        resolution_width: "854"@,
        resolution_height: "480"@,
        quick_play_path: ""@,
        quick_play_singleplayer: ""@,
        quick_play_multiplayer: ""@,
        quick_play_realms: ""@,
    }
}

/// The features of a launch: a custom resolution, nothing else.
pub open spec fn launch_features() -> LaunchFeatures {
    LaunchFeatures {
        is_demo_user: false,
        has_custom_resolution: true,
        has_quick_plays_support: false,
        is_quick_play_singleplayer: false,
        is_quick_play_multiplayer: false,
        is_quick_play_realms: false,
    }
}

/// The arguments of the Java program: default user JVM arguments, JVM
/// arguments, the main class, then the game arguments.
pub open spec fn launch_arguments(m: MinecraftManifest, base: Seq<char>, host: HostInfo) -> Seq<
    Seq<char>,
> {
    let w = is_windows(host.os@);
    let natives_directory = natives_dir(m, base, w);
    let cp = classpath_of(m, base, host);
    default_user_jvm_argument_list(m, host) + jvm_argument_list(
        m,
        base,
        "AsymptoteLauncher"@,
        "0.0.5"@,
        cp,
        natives_directory,
        host,
    ) + seq![m.main_class@] + game_argument_list(m, launch_game_info(m, base, w), launch_features(), host)
}

/// The directory of the native libraries of a version.
pub open spec fn natives_dir(m: MinecraftManifest, base: Seq<char>, windows: bool) -> Seq<char> {
    joined_path(version_dir(base, m.id@, windows), "natives"@, windows)
}

/// The directory of the native libraries of a version.
pub fn natives_directory_path(minecraft_manifest: &MinecraftManifest, base_dir: &str, windows: bool) -> (r:
    String)
    ensures
        r@ == natives_dir(*minecraft_manifest, base_dir@, windows),
{
    let versions = join_path(base_dir, "versions", windows);
    let dir = join_path(versions.as_str(), minecraft_manifest.id.as_str(), windows);
    join_path(dir.as_str(), "natives", windows)
}

fn append_strings(out: &mut Vec<String>, src: Vec<String>)
    ensures
        strings_view(final(out)@) == strings_view(old(out)@) + strings_view(src@),
{
    push_strings(out, &src);
}

/// The launch of a version from the game directory `base_dir`, with native
/// libraries in the version's `natives` directory (see [`launch_arguments`]).
pub fn build_minecraft(minecraft_manifest: &MinecraftManifest, base_dir: &str, host: &HostInfo) -> (r:
    LaunchPlan)
    ensures
        r.program@ == java_program(),
        r.working_directory@ == base_dir@,
        strings_view(r.arguments@) == launch_arguments(*minecraft_manifest, base_dir@, *host),
{
    let windows = windows_host(host.os.as_str());
    let natives = natives_directory_path(minecraft_manifest, base_dir, windows);
    let natives_directory = natives.as_str();
    let assets_root = join_path(base_dir, "assets", windows);
    let game_info = get_game_info(
        "Fr0ymi",
        minecraft_manifest.id.as_str(),
        base_dir,
        assets_root.as_str(),
        minecraft_manifest.asset_index.id.as_str(),
        "00000000-0000-0000-0000-000000000000",
        "null",
        "",
        "",
        minecraft_manifest.version_type.as_str(),
        "854",
        "480",
        "",
        "",
        "",
        "",
    );
    let launch_features = LaunchFeatures {
        is_demo_user: false,
        has_custom_resolution: true,
        has_quick_plays_support: false,
        is_quick_play_singleplayer: false,
        is_quick_play_multiplayer: false,
        is_quick_play_realms: false,
    };
    let classpath = form_classpath(minecraft_manifest, base_dir, host);
    let jvm_arguments = form_jvm_arguments(
        minecraft_manifest,
        base_dir,
        "AsymptoteLauncher",
        "0.0.5",
        classpath.as_str(),
        natives_directory,
        host,
    );
    let default_user_jvm_arguments = form_default_user_jvm_arguments(minecraft_manifest, host);
    let game_arguments = form_game_arguments(minecraft_manifest, &game_info, &launch_features, host);
    let mut arguments: Vec<String> = Vec::new();
    append_strings(&mut arguments, default_user_jvm_arguments);
    append_strings(&mut arguments, jvm_arguments);
    let ghost before = arguments@;
    let main_class = minecraft_manifest.main_class.clone();
    arguments.push(main_class);
    proof {
        lemma_strings_view_push(before, main_class);
    }
    append_strings(&mut arguments, game_arguments);
    assert(game_info@ == launch_game_info(*minecraft_manifest, base_dir@, windows));
    assert(strings_view(arguments@) =~= launch_arguments(*minecraft_manifest, base_dir@, *host));
    LaunchPlan {
        program: "C:\\Program Files\\Eclipse Adoptium\\jdk-25.0.4.101-hotspot\\bin\\java.exe".to_owned(),
        arguments,
        working_directory: base_dir.to_owned(),
    }
}

} // verus!
