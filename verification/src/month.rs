//! The choice page of a subscription order, and its three wire shapes.
//!
//! The service does not version this payload. Its choice data arrives
//! in one of three mutually exclusive shapes, told apart only by which
//! members are present:
//!
//! * the *initial* shape: a single wrapper member holding a mapping
//!   from choice identifier to choice entry;
//! * the *game data* shape: the object itself is that mapping, and
//!   each entry's games may be either a flat key list or a nested
//!   mapping of key lists;
//! * anything else, the object with no members included: treated as
//!   an empty page, never as an error.
//!
//! Decoding tries the shapes in that fixed order. A games member that
//! carries its tag but holds a malformed key entry is a fatal decode
//! error; an object that merely matches no shape contributes no keys.

use vstd::prelude::*;
use crate::api::{AllTpks, spec_tpk_dict, spec_tpks};
use crate::api::{decode_tpk_dict, decode_tpks};
use crate::json::{DecodeError, JsonValue, json_doc, json_key};
use crate::json::{obj_field, parse_json};

verus! {

/// The games of one choice entry: either directly a key list, or a
/// nested mapping from an opaque secondary key to key lists.
#[derive(Debug, Clone, PartialEq)]
pub enum MonthPageOptionsDataGamesChoiceEnum {
    Tpkds(Vec<AllTpks>),
    NestedChoiceTpkds(Vec<(String, Vec<AllTpks>)>),
}

/// One choice entry of a month page.
#[derive(Debug, Clone, PartialEq)]
pub struct MonthPageOptionsDataGamesChoice {
    pub games: MonthPageOptionsDataGamesChoiceEnum,
}

/// The inner mapping of the initial shape: the wrapper member's
/// object, read as a mapping from choice identifier to choice entry.
#[derive(Debug, Clone, PartialEq)]
pub struct MonthPageOptionsDataInitial {
    pub content_choices: Vec<(String, MonthPageOptionsDataGamesChoice)>,
}

/// The decoded choice data, one variant per wire shape, in the order
/// the shapes are tried.
#[derive(Debug, Clone, PartialEq)]
pub enum MonthPageOptionsDataEnum {
    Initial { initial: MonthPageOptionsDataInitial },
    GameData { game_data: Vec<(String, MonthPageOptionsDataGamesChoice)> },
    Unknown {},
}

#[derive(Debug, Clone, PartialEq)]
pub struct MonthPageOptions {
    pub content_choice_data: MonthPageOptionsDataEnum,
}

#[derive(Debug, Clone, PartialEq)]
pub struct MonthPage {
    pub content_choice_options: MonthPageOptions,
}

/// A choice entry's games at the sequence level.
pub enum GamesChoiceView {
    Flat(Seq<AllTpks>),
    Nested(Seq<(String, Seq<AllTpks>)>),
}

/// Choice data at the sequence level, one variant per wire shape.
pub enum ChoiceDataView {
    Initial { choices: Seq<(String, GamesChoiceView)> },
    GameData { choices: Seq<(String, GamesChoiceView)> },
    Unknown,
}

impl View for MonthPageOptionsDataGamesChoiceEnum {
    type V = GamesChoiceView;

    open spec fn view(&self) -> GamesChoiceView {
        match *self {
            MonthPageOptionsDataGamesChoiceEnum::Tpkds(ts) => GamesChoiceView::Flat(ts@),
            MonthPageOptionsDataGamesChoiceEnum::NestedChoiceTpkds(m) => GamesChoiceView::Nested(
                m@.map_values(|p: (String, Vec<AllTpks>)| (p.0, p.1@)),
            ),
        }
    }
}

impl View for MonthPageOptionsDataGamesChoice {
    type V = GamesChoiceView;

    open spec fn view(&self) -> GamesChoiceView {
        self.games@
    }
}

/// The member list of a choice mapping, at the sequence level.
pub open spec fn choices_view(cs: Seq<(String, MonthPageOptionsDataGamesChoice)>) -> Seq<
    (String, GamesChoiceView),
> {
    cs.map_values(|p: (String, MonthPageOptionsDataGamesChoice)| (p.0, p.1@))
}

impl View for MonthPageOptionsDataEnum {
    type V = ChoiceDataView;

    open spec fn view(&self) -> ChoiceDataView {
        match *self {
            MonthPageOptionsDataEnum::Initial { initial } => ChoiceDataView::Initial {
                choices: choices_view(initial.content_choices@),
            },
            MonthPageOptionsDataEnum::GameData { game_data } => ChoiceDataView::GameData {
                choices: choices_view(game_data@),
            },
            MonthPageOptionsDataEnum::Unknown {  } => ChoiceDataView::Unknown,
        }
    }
}

impl View for MonthPage {
    type V = ChoiceDataView;

    open spec fn view(&self) -> ChoiceDataView {
        self.content_choice_options.content_choice_data@
    }
}

/// What reading one object as a choice entry yields. `Ok(None)` means
/// the object carries neither games tag and so is no choice entry at
/// all; a tag whose payload is malformed is an error.
pub open spec fn spec_games_choice(v: JsonValue) -> Result<Option<GamesChoiceView>, DecodeError> {
    match v {
        JsonValue::Obj(es) => match json_key(es@, "tpkds"@) {
            Some(t) => match spec_tpks(t) {
                Ok(ts) => Ok(Some(GamesChoiceView::Flat(ts))),
                Err(e) => Err(e),
            },
            None => match json_key(es@, "nested_choice_tpkds"@) {
                Some(JsonValue::Obj(nes)) => match spec_tpk_dict(nes@) {
                    Ok(m) => Ok(Some(GamesChoiceView::Nested(m))),
                    Err(e) => Err(e),
                },
                Some(_) => Err(DecodeError::WrongType),
                None => Ok(None),
            },
        },
        _ => Ok(None),
    }
}

/// What reading an object's members as a choice mapping yields:
/// every member must be a choice entry; the first member that is no
/// choice entry makes the whole object no choice mapping, and the
/// first malformed entry is an error.
pub open spec fn spec_choice_map(es: Seq<(String, JsonValue)>) -> Result<
    Option<Seq<(String, GamesChoiceView)>>,
    DecodeError,
>
    decreases es.len(),
{
    if es.len() == 0 {
        Ok(Some(Seq::empty()))
    } else {
        match spec_games_choice(es[0].1) {
            Err(e) => Err(e),
            Ok(None) => Ok(None),
            Ok(Some(gc)) => match spec_choice_map(es.drop_first()) {
                Err(e) => Err(e),
                Ok(None) => Ok(None),
                Ok(Some(rest)) => Ok(Some(seq![(es[0].0, gc)] + rest)),
            },
        }
    }
}

/// The game-data trial: the object itself must be a non-empty choice
/// mapping. An object with no members matches neither shape, and an
/// object that is no choice mapping matches none either; both fall
/// through to the empty shape.
pub open spec fn spec_game_data(es: Seq<(String, JsonValue)>) -> Result<
    ChoiceDataView,
    DecodeError,
> {
    if es.len() == 0 {
        Ok(ChoiceDataView::Unknown)
    } else {
        match spec_choice_map(es) {
            Err(e) => Err(e),
            Ok(Some(cs)) => Ok(ChoiceDataView::GameData { choices: cs }),
            Ok(None) => Ok(ChoiceDataView::Unknown),
        }
    }
}

/// What decoding the choice data yields. The shapes are tried in a
/// fixed order: first the initial wrapper (under its wire name or its
/// short name), then the bare mapping, then the empty fallback. Only
/// a malformed key entry under a games tag is an error; any other
/// mismatch falls through.
pub open spec fn spec_choice_data(v: JsonValue) -> Result<ChoiceDataView, DecodeError> {
    match v {
        JsonValue::Obj(es) => {
            let wrapper = if json_key(es@, "initial-get-all-games"@) is Some {
                json_key(es@, "initial-get-all-games"@)
            } else {
                json_key(es@, "initial"@)
            };
            match wrapper {
                Some(JsonValue::Obj(ies)) => match spec_choice_map(ies@) {
                    Err(e) => Err(e),
                    Ok(Some(cs)) => Ok(ChoiceDataView::Initial { choices: cs }),
                    Ok(None) => spec_game_data(es@),
                },
                Some(_) => spec_game_data(es@),
                None => spec_game_data(es@),
            }
        },
        _ => Err(DecodeError::WrongType),
    }
}

/// What decoding a whole month page yields: the choice data sits
/// under the page's choice options member.
pub open spec fn spec_month_page(v: JsonValue) -> Result<ChoiceDataView, DecodeError> {
    match v {
        JsonValue::Obj(es) => match json_key(es@, "contentChoiceOptions"@) {
            Some(JsonValue::Obj(oes)) => match json_key(oes@, "contentChoiceData"@) {
                Some(d) => spec_choice_data(d),
                None => Err(DecodeError::MissingField),
            },
            Some(_) => Err(DecodeError::WrongType),
            None => Err(DecodeError::MissingField),
        },
        _ => Err(DecodeError::WrongType),
    }
}

/// Reads one object as a choice entry, or as none.
pub fn decode_games_choice(v: &JsonValue) -> (r: Result<
    Option<MonthPageOptionsDataGamesChoice>,
    DecodeError,
>)
    ensures
        match spec_games_choice(*v) {
            Ok(Some(gv)) => r matches Ok(Some(g)) && g@ == gv,
            Ok(None) => r == Ok::<Option<MonthPageOptionsDataGamesChoice>, DecodeError>(None),
            Err(e) => r == Err::<Option<MonthPageOptionsDataGamesChoice>, DecodeError>(e),
        },
{
    match v {
        JsonValue::Obj(es) => match obj_field(es, &"tpkds".to_owned()) {
            Some(t) => match decode_tpks(t) {
                Ok(ts) => Ok(
                    Some(
                        MonthPageOptionsDataGamesChoice {
                            games: MonthPageOptionsDataGamesChoiceEnum::Tpkds(ts),
                        },
                    ),
                ),
                Err(e) => Err(e),
            },
            None => match obj_field(es, &"nested_choice_tpkds".to_owned()) {
                Some(JsonValue::Obj(nes)) => match decode_tpk_dict(nes) {
                    Ok(m) => Ok(
                        Some(
                            MonthPageOptionsDataGamesChoice {
                                games: MonthPageOptionsDataGamesChoiceEnum::NestedChoiceTpkds(m),
                            },
                        ),
                    ),
                    Err(e) => Err(e),
                },
                Some(_) => Err(DecodeError::WrongType),
                None => Ok(None),
            },
        },
        _ => Ok(None),
    }
}

/// Reads an object's members as a choice mapping, or as none.
fn decode_choice_map(es: &Vec<(String, JsonValue)>) -> (r: Result<
    Option<Vec<(String, MonthPageOptionsDataGamesChoice)>>,
    DecodeError,
>)
    ensures
        match spec_choice_map(es@) {
            Ok(Some(cs)) => r matches Ok(Some(out)) && choices_view(out@) == cs,
            Ok(None) => r == Ok::<
                Option<Vec<(String, MonthPageOptionsDataGamesChoice)>>,
                DecodeError,
            >(None),
            Err(e) => r == Err::<
                Option<Vec<(String, MonthPageOptionsDataGamesChoice)>>,
                DecodeError,
            >(e),
        },
{
    let ghost g = |p: (String, MonthPageOptionsDataGamesChoice)| (p.0, p.1@);
    let mut out: Vec<(String, MonthPageOptionsDataGamesChoice)> = Vec::new();
    let mut i: usize = 0;
    proof {
        assert(es@.skip(0) =~= es@);
        assert(out@.map_values(g) =~= Seq::<(String, GamesChoiceView)>::empty());
    }
    while i < es.len()
        invariant
            i <= es@.len(),
            g == (|p: (String, MonthPageOptionsDataGamesChoice)| (p.0, p.1@)),
            match spec_choice_map(es@.skip(i as int)) {
                Ok(Some(rest)) => spec_choice_map(es@) == Ok::<
                    Option<Seq<(String, GamesChoiceView)>>,
                    DecodeError,
                >(Some(out@.map_values(g) + rest)),
                Ok(None) => spec_choice_map(es@) == Ok::<
                    Option<Seq<(String, GamesChoiceView)>>,
                    DecodeError,
                >(None),
                Err(e) => spec_choice_map(es@) == Err::<
                    Option<Seq<(String, GamesChoiceView)>>,
                    DecodeError,
                >(e),
            },
        decreases es@.len() - i,
    {
        proof {
            assert(es@.skip(i as int)[0] == es@[i as int]);
            assert(es@.skip(i as int).drop_first() =~= es@.skip(i + 1 as int));
        }
        match decode_games_choice(&es[i].1) {
            Ok(Some(gc)) => {
                let ghost prev = out@;
                let name = es[i].0.clone();
                out.push((name, gc));
                proof {
                    assert(out@.map_values(g) =~= prev.map_values(g) + seq![
                        (es@[i as int].0, spec_games_choice(es@[i as int].1)->Ok_0->Some_0),
                    ]);
                    if spec_choice_map(es@.skip(i + 1 as int)) is Ok && spec_choice_map(
                        es@.skip(i + 1 as int),
                    )->Ok_0 is Some {
                        let rest = spec_choice_map(es@.skip(i + 1 as int))->Ok_0->Some_0;
                        assert(prev.map_values(g) + (seq![
                            (es@[i as int].0, spec_games_choice(es@[i as int].1)->Ok_0->Some_0),
                        ] + rest) =~= out@.map_values(g) + rest);
                    }
                }
            },
            Ok(None) => {
                return Ok(None);
            },
            Err(e) => {
                return Err(e);
            },
        }
        i = i + 1;
    }
    proof {
        assert(es@.skip(i as int).len() == 0);
        assert(out@.map_values(g) + Seq::<(String, GamesChoiceView)>::empty() =~= out@.map_values(
            g,
        ));
    }
    Ok(Some(out))
}

/// Decodes the choice data of a month page, trying the three shapes
/// in their fixed order.
pub fn decode_choice_data(v: &JsonValue) -> (r: Result<MonthPageOptionsDataEnum, DecodeError>)
    ensures
        match spec_choice_data(*v) {
            Ok(dv) => r matches Ok(d) && d@ == dv,
            Err(e) => r == Err::<MonthPageOptionsDataEnum, DecodeError>(e),
        },
{
    match v {
        JsonValue::Obj(es) => {
            let wrapper = match obj_field(es, &"initial-get-all-games".to_owned()) {
                Some(w) => Some(w),
                None => obj_field(es, &"initial".to_owned()),
            };
            if let Some(JsonValue::Obj(ies)) = wrapper {
                match decode_choice_map(ies) {
                    Err(e) => {
                        return Err(e);
                    },
                    Ok(Some(cs)) => {
                        return Ok(
                            MonthPageOptionsDataEnum::Initial {
                                initial: MonthPageOptionsDataInitial { content_choices: cs },
                            },
                        );
                    },
                    Ok(None) => {},
                }
            }
            if es.len() == 0 {
                return Ok(MonthPageOptionsDataEnum::Unknown {  });
            }
            match decode_choice_map(es) {
                Err(e) => Err(e),
                Ok(Some(cs)) => Ok(MonthPageOptionsDataEnum::GameData { game_data: cs }),
                Ok(None) => Ok(MonthPageOptionsDataEnum::Unknown {  }),
            }
        },
        _ => Err(DecodeError::WrongType),
    }
}

/// Decodes a whole month page.
pub fn decode_month_page(v: &JsonValue) -> (r: Result<MonthPage, DecodeError>)
    ensures
        match spec_month_page(*v) {
            Ok(dv) => r matches Ok(p) && p@ == dv,
            Err(e) => r == Err::<MonthPage, DecodeError>(e),
        },
{
    match v {
        JsonValue::Obj(es) => match obj_field(es, &"contentChoiceOptions".to_owned()) {
            Some(JsonValue::Obj(oes)) => match obj_field(oes, &"contentChoiceData".to_owned()) {
                Some(d) => match decode_choice_data(d) {
                    Ok(data) => Ok(
                        MonthPage {
                            content_choice_options: MonthPageOptions {
                                content_choice_data: data,
                            },
                        },
                    ),
                    Err(e) => Err(e),
                },
                None => Err(DecodeError::MissingField),
            },
            Some(_) => Err(DecodeError::WrongType),
            None => Err(DecodeError::MissingField),
        },
        _ => Err(DecodeError::WrongType),
    }
}

/// Decodes a month page from the page's embedded JSON text.
pub fn month_page_from_text(s: &str) -> (r: Result<MonthPage, DecodeError>)
    ensures
        json_doc(s@) is None ==> r == Err::<MonthPage, DecodeError>(DecodeError::Syntax),
        json_doc(s@) matches Some(t) ==> match spec_month_page(t) {
            Ok(dv) => r matches Ok(p) && p@ == dv,
            Err(e) => r == Err::<MonthPage, DecodeError>(e),
        },
{
    match parse_json(s) {
        Some(t) => decode_month_page(&t),
        None => Err(DecodeError::Syntax),
    }
}

/// The concatenation of a nested mapping's key lists, in mapping
/// order.
pub open spec fn spec_flat_vals(m: Seq<(String, Seq<AllTpks>)>) -> Seq<AllTpks>
    decreases m.len(),
{
    if m.len() == 0 {
        Seq::empty()
    } else {
        m[0].1 + spec_flat_vals(m.drop_first())
    }
}

/// The games of one choice entry, flattened: a flat list as it is, a
/// nested mapping by concatenating its lists in mapping order.
pub open spec fn spec_resolve_games(g: GamesChoiceView) -> Seq<AllTpks> {
    match g {
        GamesChoiceView::Flat(ts) => ts,
        GamesChoiceView::Nested(m) => spec_flat_vals(m),
    }
}

/// All entries of a choice mapping, flattened and concatenated in
/// mapping order.
pub open spec fn spec_resolve_entries(cs: Seq<(String, GamesChoiceView)>) -> Seq<AllTpks>
    decreases cs.len(),
{
    if cs.len() == 0 {
        Seq::empty()
    } else {
        spec_resolve_games(cs[0].1) + spec_resolve_entries(cs.drop_first())
    }
}

/// The raw key entries a page's choice data contributes: all entries
/// of both mapped shapes, and none for the empty fallback.
pub open spec fn spec_resolve_choice_data(d: ChoiceDataView) -> Seq<AllTpks> {
    match d {
        ChoiceDataView::Initial { choices } => spec_resolve_entries(choices),
        ChoiceDataView::GameData { choices } => spec_resolve_entries(choices),
        ChoiceDataView::Unknown => Seq::empty(),
    }
}

/// Flattens one choice entry's games.
pub fn resolve_games(gc: MonthPageOptionsDataGamesChoice) -> (r: Vec<AllTpks>)
    ensures
        r@ == spec_resolve_games(gc@),
{
    match gc.games {
        MonthPageOptionsDataGamesChoiceEnum::Tpkds(ts) => ts,
        MonthPageOptionsDataGamesChoiceEnum::NestedChoiceTpkds(m) => {
            let ghost g = |p: (String, Vec<AllTpks>)| (p.0, p.1@);
            let ghost full = m@.map_values(g);
            let mut m = m;
            let mut out: Vec<AllTpks> = Vec::new();
            proof {
                assert(out@ + spec_flat_vals(m@.map_values(g)) =~= spec_flat_vals(full));
            }
            while m.len() > 0
                invariant
                    g == (|p: (String, Vec<AllTpks>)| (p.0, p.1@)),
                    out@ + spec_flat_vals(m@.map_values(g)) == spec_flat_vals(full),
                decreases m@.len(),
            {
                let ghost mv = m@.map_values(g);
                let p = m.remove(0);
                let mut ts = p.1;
                proof {
                    assert(m@.map_values(g) =~= mv.drop_first());
                    assert(mv[0].1 == ts@);
                }
                let ghost prev = out@;
                out.append(&mut ts);
                proof {
                    assert((prev + mv[0].1) + spec_flat_vals(mv.drop_first()) =~= prev + (mv[0].1
                        + spec_flat_vals(mv.drop_first())));
                }
            }
            proof {
                assert(m@.map_values(g).len() == 0);
                assert(out@ + Seq::<AllTpks>::empty() =~= out@);
            }
            out
        },
    }
}

/// Flattens a whole choice mapping.
fn resolve_entries(cs: Vec<(String, MonthPageOptionsDataGamesChoice)>) -> (r: Vec<AllTpks>)
    ensures
        r@ == spec_resolve_entries(choices_view(cs@)),
{
    let ghost g = |p: (String, MonthPageOptionsDataGamesChoice)| (p.0, p.1@);
    let ghost full = choices_view(cs@);
    let mut cs = cs;
    let mut out: Vec<AllTpks> = Vec::new();
    proof {
        assert(out@ + spec_resolve_entries(cs@.map_values(g)) =~= spec_resolve_entries(full));
    }
    while cs.len() > 0
        invariant
            g == (|p: (String, MonthPageOptionsDataGamesChoice)| (p.0, p.1@)),
            out@ + spec_resolve_entries(cs@.map_values(g)) == spec_resolve_entries(full),
        decreases cs@.len(),
    {
        let ghost cv = cs@.map_values(g);
        let p = cs.remove(0);
        proof {
            assert(cs@.map_values(g) =~= cv.drop_first());
            assert(cv[0].1 == p.1@);
        }
        let ghost prev = out@;
        let mut ts = resolve_games(p.1);
        out.append(&mut ts);
        proof {
            assert((prev + spec_resolve_games(cv[0].1)) + spec_resolve_entries(cv.drop_first())
                =~= prev + (spec_resolve_games(cv[0].1) + spec_resolve_entries(cv.drop_first())));
        }
    }
    proof {
        assert(cs@.map_values(g).len() == 0);
        assert(out@ + Seq::<AllTpks>::empty() =~= out@);
    }
    out
}

/// Flattens decoded choice data into the raw key entries it
/// contributes; the empty fallback contributes none.
pub fn resolve_choice_data(d: MonthPageOptionsDataEnum) -> (r: Vec<AllTpks>)
    ensures
        r@ == spec_resolve_choice_data(d@),
{
    match d {
        MonthPageOptionsDataEnum::Initial { initial } => resolve_entries(initial.content_choices),
        MonthPageOptionsDataEnum::GameData { game_data } => resolve_entries(game_data),
        MonthPageOptionsDataEnum::Unknown {  } => Vec::new(),
    }
}

/// Resolving the same choice data twice yields the same sequence of
/// raw key entries, and so the same multiset of them.
pub proof fn lemma_resolver_repeatable(d: ChoiceDataView, r1: Seq<AllTpks>, r2: Seq<AllTpks>)
    requires
        r1 == spec_resolve_choice_data(d),
        r2 == spec_resolve_choice_data(d),
    ensures
        r1 == r2,
        r1.to_multiset() == r2.to_multiset(),
{
}

} // verus!
