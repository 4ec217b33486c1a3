//! Loading themes from platform style sheets.

use vstd::prelude::*;

use crate::native_visuals::conversions::{OptionReplace, ToEgui};
use crate::native_visuals::css_values::{
    parse_rule_models, parsed_rule_models, CssBorder, CssBorderRadius, CssColorValue, RuleModel,
    ThemeProperty,
};
use crate::style::{Stroke, Visuals, WidgetVisuals, Widgets};

verus! {

/// The two places a theme rule can aim at: the window background or the
/// widgets.
#[derive(Debug, Clone, Copy, PartialEq, Eq, Structural)]
pub enum ThemeTarget {
    Background,
    Button,
}

/// A border declaration applied to the background stroke of one widget
/// state.
pub open spec fn border_applied_one(b: CssBorder, w: WidgetVisuals) -> WidgetVisuals {
    WidgetVisuals { bg_stroke: b.replace_spec(w.bg_stroke), ..w }
}

/// A border declaration applied to every widget state.
pub open spec fn border_applied(b: CssBorder, w: Widgets) -> Widgets {
    Widgets {
        noninteractive: border_applied_one(b, w.noninteractive),
        inactive: border_applied_one(b, w.inactive),
        hovered: border_applied_one(b, w.hovered),
        active: border_applied_one(b, w.active),
        open: border_applied_one(b, w.open),
    }
}

/// A border-radius declaration applied to the rounding of one widget state.
pub open spec fn radius_applied_one(r: CssBorderRadius, w: WidgetVisuals) -> WidgetVisuals {
    WidgetVisuals { rounding: r.replace_spec(w.rounding), ..w }
}

/// A border-radius declaration applied to every widget state.
pub open spec fn radius_applied(r: CssBorderRadius, w: Widgets) -> Widgets {
    Widgets {
        noninteractive: radius_applied_one(r, w.noninteractive),
        inactive: radius_applied_one(r, w.inactive),
        hovered: radius_applied_one(r, w.hovered),
        active: radius_applied_one(r, w.active),
        open: radius_applied_one(r, w.open),
    }
}

/// One property applied under the background handler: background colours
/// rewrite the panel fill, text colours the noninteractive strokes.
pub open spec fn apply_background_spec(p: ThemeProperty, v: Visuals) -> Visuals {
    match p {
        ThemeProperty::BackgroundColor(c) => Visuals {
            panel_fill: c.replace_spec(v.panel_fill),
            ..v
        },
        ThemeProperty::TextColor(c) => Visuals {
            widgets: Widgets {
                noninteractive: WidgetVisuals {
                    fg_stroke: Stroke {
                        color: c.replace_spec(v.widgets.noninteractive.fg_stroke.color),
                        ..v.widgets.noninteractive.fg_stroke
                    },
                    bg_stroke: Stroke {
                        color: c.replace_spec(v.widgets.noninteractive.bg_stroke.color),
                        ..v.widgets.noninteractive.bg_stroke
                    },
                    ..v.widgets.noninteractive
                },
                ..v.widgets
            },
            ..v
        },
        _ => v,
    }
}

/// One property applied under the button handler: borders rewrite every
/// widget state's background stroke, border radii every state's rounding.
pub open spec fn apply_button_spec(p: ThemeProperty, v: Visuals) -> Visuals {
    match p {
        ThemeProperty::Border(b) => Visuals { widgets: border_applied(b, v.widgets), ..v },
        ThemeProperty::BorderRadius(r) => Visuals { widgets: radius_applied(r, v.widgets), ..v },
        _ => v,
    }
}

/// One property applied under the given handler.
pub open spec fn apply_handler_spec(h: ThemeTarget, p: ThemeProperty, v: Visuals) -> Visuals {
    match h {
        ThemeTarget::Background => apply_background_spec(p, v),
        ThemeTarget::Button => apply_button_spec(p, v),
    }
}

/// The first `n` properties applied in order under the given handler.
pub open spec fn apply_properties_prefix(
    h: ThemeTarget,
    ps: Seq<ThemeProperty>,
    n: int,
    v: Visuals,
) -> Visuals
    decreases n,
{
    if n <= 0 {
        v
    } else {
        apply_handler_spec(h, ps[n - 1], apply_properties_prefix(h, ps, n - 1, v))
    }
}

/// All properties of a rule applied in order under the given handler.
pub open spec fn apply_properties_spec(
    h: ThemeTarget,
    ps: Seq<ThemeProperty>,
    v: Visuals,
) -> Visuals {
    apply_properties_prefix(h, ps, ps.len() as int, v)
}

/// The first handler whose target equals the selector, searched from
/// position `i` on.
pub open spec fn find_handler_from(
    hs: Seq<(Seq<char>, ThemeTarget)>,
    sel: Seq<char>,
    i: int,
) -> Option<ThemeTarget>
    decreases hs.len() - i,
{
    if i < 0 || i >= hs.len() {
        None
    } else if hs[i].0 == sel {
        Some(hs[i].1)
    } else {
        find_handler_from(hs, sel, i + 1)
    }
}

/// The first handler whose target equals the selector.
pub open spec fn find_handler_spec(
    hs: Seq<(Seq<char>, ThemeTarget)>,
    sel: Seq<char>,
) -> Option<ThemeTarget> {
    find_handler_from(hs, sel, 0)
}

/// One rule's effect, up to its first `n` selectors: each printed selector
/// that names a handler applies all of the rule's properties under that
/// handler, in selector order.
pub open spec fn walk_selectors_prefix(
    sels: Seq<Option<String>>,
    ps: Seq<ThemeProperty>,
    hs: Seq<(Seq<char>, ThemeTarget)>,
    n: int,
    v: Visuals,
) -> Visuals
    decreases n,
{
    if n <= 0 {
        v
    } else {
        let prev = walk_selectors_prefix(sels, ps, hs, n - 1, v);
        match sels[n - 1] {
            Some(sel) => match find_handler_spec(hs, sel@) {
                Some(h) => apply_properties_spec(h, ps, prev),
                None => prev,
            },
            None => prev,
        }
    }
}

/// The effect of the first `n` rules of a sheet.
pub open spec fn walk_rules_prefix(
    rules: Seq<RuleModel>,
    hs: Seq<(Seq<char>, ThemeTarget)>,
    n: int,
    v: Visuals,
) -> Visuals
    decreases n,
{
    if n <= 0 {
        v
    } else {
        let prev = walk_rules_prefix(rules, hs, n - 1, v);
        match rules[n - 1] {
            RuleModel::Style { selectors, properties } => walk_selectors_prefix(
                selectors@,
                properties@,
                hs,
                selectors@.len() as int,
                prev,
            ),
            RuleModel::Other => prev,
        }
    }
}

/// The effect of a whole sheet on the visuals.
pub open spec fn walk_style_sheet_spec(
    rules: Seq<RuleModel>,
    hs: Seq<(Seq<char>, ThemeTarget)>,
    v: Visuals,
) -> Visuals {
    walk_rules_prefix(rules, hs, rules.len() as int, v)
}

/// The view of an executable handler table.
pub open spec fn handlers_view(hs: Seq<(String, ThemeTarget)>) -> Seq<(Seq<char>, ThemeTarget)> {
    hs.map_values(|p: (String, ThemeTarget)| (p.0@, p.1))
}

/// Applies one property to the visuals under the given handler.
fn apply_handler(h: ThemeTarget, p: &ThemeProperty, visuals: &mut Visuals)
    ensures
        *final(visuals) == apply_handler_spec(h, *p, *old(visuals)),
{
    match h {
        ThemeTarget::Background => match p {
            ThemeProperty::BackgroundColor(c) => {
                c.option_replace(&mut visuals.panel_fill);
            },
            ThemeProperty::TextColor(c) => {
                c.option_replace(&mut visuals.widgets.noninteractive.fg_stroke.color);
                c.option_replace(&mut visuals.widgets.noninteractive.bg_stroke.color);
            },
            _ => {},
        },
        ThemeTarget::Button => match p {
            ThemeProperty::Border(b) => {
                b.option_replace(&mut visuals.widgets.noninteractive.bg_stroke);
                b.option_replace(&mut visuals.widgets.inactive.bg_stroke);
                b.option_replace(&mut visuals.widgets.hovered.bg_stroke);
                b.option_replace(&mut visuals.widgets.active.bg_stroke);
                b.option_replace(&mut visuals.widgets.open.bg_stroke);
            },
            ThemeProperty::BorderRadius(r) => {
                r.option_replace(&mut visuals.widgets.noninteractive.rounding);
                r.option_replace(&mut visuals.widgets.inactive.rounding);
                r.option_replace(&mut visuals.widgets.hovered.rounding);
                r.option_replace(&mut visuals.widgets.active.rounding);
                r.option_replace(&mut visuals.widgets.open.rounding);
            },
            _ => {},
        },
    }
}

/// Looks up the first handler whose target equals the selector.
fn find_handler(handlers: &Vec<(String, ThemeTarget)>, sel: &String) -> (r: Option<ThemeTarget>)
    ensures
        r == find_handler_spec(handlers_view(handlers@), sel@),
{
    let ghost hv = handlers_view(handlers@);
    let mut i: usize = 0;
    while i < handlers.len()
        invariant
            0 <= i <= handlers.len(),
            hv == handlers_view(handlers@),
            hv.len() == handlers@.len(),
            forall|j: int| 0 <= j < hv.len() ==> #[trigger] hv[j] == (handlers@[j].0@, handlers@[j].1),
            find_handler_from(hv, sel@, 0) == find_handler_from(hv, sel@, i as int),
        decreases handlers.len() - i,
    {
        if handlers[i].0 == *sel {
            return Some(handlers[i].1);
        }
        i = i + 1;
    }
    None
}

/// Walks the rules of a parsed sheet, applying every property of every rule
/// whose selector names a handler, exactly as [`walk_style_sheet_spec`]
/// states.
pub fn walk_style_sheet(
    rules: &Vec<RuleModel>,
    visuals: &mut Visuals,
    handlers: &Vec<(String, ThemeTarget)>,
)
    ensures
        *final(visuals) == walk_style_sheet_spec(
            rules@,
            handlers_view(handlers@),
            *old(visuals),
        ),
{
    let ghost hv = handlers_view(handlers@);
    let ghost v0 = *visuals;
    let mut i: usize = 0;
    while i < rules.len()
        invariant
            0 <= i <= rules.len(),
            hv == handlers_view(handlers@),
            *visuals == walk_rules_prefix(rules@, hv, i as int, v0),
        decreases rules.len() - i,
    {
        match &rules[i] {
            RuleModel::Style { selectors, properties } => {
                let ghost vr = *visuals;
                let mut j: usize = 0;
                while j < selectors.len()
                    invariant
                        0 <= j <= selectors@.len(),
                        hv == handlers_view(handlers@),
                        *visuals == walk_selectors_prefix(
                            selectors@,
                            properties@,
                            hv,
                            j as int,
                            vr,
                        ),
                    decreases selectors.len() - j,
                {
                    match &selectors[j] {
                        Some(sel) => {
                            match find_handler(handlers, sel) {
                                Some(h) => {
                                    let ghost vs = *visuals;
                                    let mut k: usize = 0;
                                    while k < properties.len()
                                        invariant
                                            0 <= k <= properties@.len(),
                                            *visuals == apply_properties_prefix(
                                                h,
                                                properties@,
                                                k as int,
                                                vs,
                                            ),
                                        decreases properties.len() - k,
                                    {
                                        apply_handler(h, &properties[k], visuals);
                                        k = k + 1;
                                    }
                                },
                                None => {},
                            }
                        },
                        None => {},
                    }
                    j = j + 1;
                }
            },
            RuleModel::Other => {},
        }
        i = i + 1;
    }
}

/// The handler table of the GTK loader: the `.background` rule feeds the
/// panel, the `button` rule the widgets.
pub open spec fn gtk_handlers_spec() -> Seq<(Seq<char>, ThemeTarget)> {
    seq![(".background"@, ThemeTarget::Background), ("button"@, ThemeTarget::Button)]
}

/// Builds the executable GTK handler table.
fn gtk_handlers() -> (r: Vec<(String, ThemeTarget)>)
    ensures
        handlers_view(r@) == gtk_handlers_spec(),
{
    let mut v: Vec<(String, ThemeTarget)> = Vec::new();
    v.push((".background".to_owned(), ThemeTarget::Background));
    v.push(("button".to_owned(), ThemeTarget::Button));
    proof {
        assert(handlers_view(v@) =~= gtk_handlers_spec());
    }
    v
}

/// Loads a GTK theme: parses `input` as CSS and applies its `.background`
/// and `button` rules to the visuals. Where the CSS does not parse, the
/// visuals stay exactly as they were; otherwise the result is the walk
/// that [`walk_style_sheet_spec`] states, over the rules the parser yields
/// for the text.
pub fn gtk(input: &str, visuals: &mut Visuals)
    ensures
        *final(visuals) == match parsed_rule_models(input@) {
            Some(rules) => walk_style_sheet_spec(rules, gtk_handlers_spec(), *old(visuals)),
            None => *old(visuals),
        },
{
    match parse_rule_models(input) {
        Some(rules) => {
            let handlers = gtk_handlers();
            walk_style_sheet(&rules, visuals, &handlers);
        },
        None => {},
    }
}

} // verus!
