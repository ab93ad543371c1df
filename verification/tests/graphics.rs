//! Decisions of the renderer.
use ronsole::graphics::atlas::{
    AtlasCursor, AtlasRect, ATLAS_SIZE_H, ATLAS_SIZE_W, PRIMARY_ATLAS_INTERNAL_FORMAT,
    PRIMARY_ATLAS_UPLOAD_FORMAT,
};
use ronsole::graphics::context::{
    diagnostics_report, framebuffer_config_rank, gl_context_attempts, gl_context_plans,
    gl_context_priority_requests, preferred_framebuffer, priority_label, ContextPriority,
    ContextReport, ContextSearch, FramebufferConfig, GlContextPlan, GlContextPriorityRequest,
};
use ronsole::graphics::glyphs::{
    alpha_channel, batch_is_full, default_emoji_presentation, font_at, has_glyph,
    one_line_ui_char_is_zero_width, raster_use, terminal_color_wish,
    terminal_force_text_presentation, CellPresentation, GlyphCache, GlyphOutcome, GlyphStep,
    Raster, RasterImage, RasterUse, BOX, ICONS, MAX_VERTICES,
};
use ronsole::graphics::palette::{
    self, kde_color_parts, terminal_accent_from_kde_content, ColorParts, PartsOf255,
};
use ronsole::graphics::rows::{
    cell_paint, cell_selected, pty_dimension, row_backgrounds, search_overlay,
    tab_reveal_target, terminal_dimensions_changed, terminal_tab_hit, visible_row_range,
    CellBackground, CellColor, CellPaint, RevealTarget, TabContact,
};
use ronsole::graphics::version::{
    graphics_version_supported, parse_graphics_version, shader_preamble, GraphicsDiagnostics,
    DESKTOP_PREAMBLE, GLES_PREAMBLE,
};
use ronsole::search::{TerminalSearchMatch, TerminalSearchState};
use ronsole::settings::TerminalTabHit;
use ronsole::terminal::Cell;

/// The colour of its parts out of 255.
fn color_of(parts: PartsOf255) -> [f32; 4] {
    let part = |bits: u32| f32::from_bits(bits) / 255.0;
    [part(parts.red), part(parts.green), part(parts.blue), 1.0]
}

fn parse_kde_color(content: &str, group: &str, key: &str) -> Option<[f32; 4]> {
    palette::parse_kde_color(content, group, key).map(color_of)
}

const DEFAULT_ACCENT_COLOR: [f32; 4] = [114.0 / 255.0, 89.0 / 255.0, 175.0 / 255.0, 1.0];

fn diagnostics(version: &str) -> GraphicsDiagnostics {
    GraphicsDiagnostics {
        vendor: "V".to_owned(),
        renderer: "R".to_owned(),
        version: version.to_owned(),
        shading_language: "S".to_owned(),
    }
}

fn image(width: u32, height: u32, color: bool, bytes: usize) -> Option<Raster> {
    Some(Raster { image: Some(RasterImage { width, height, color, bytes }) })
}

#[test]
fn graphics_version_parser_accepts_desktop_and_gles() {
    assert_eq!(parse_graphics_version("4.1.0 NVIDIA"), Some((4, 1)));
    assert_eq!(parse_graphics_version("OpenGL ES 3.2 Mesa"), Some((3, 2)));
    assert!(graphics_version_supported("3.3 Mesa", false));
    assert!(graphics_version_supported("OpenGL ES 3.0", true));
    assert!(!graphics_version_supported("3.2 Mesa", false));
}

#[test]
fn version_is_read_off_the_first_word_with_a_digit() {
    assert_eq!(parse_graphics_version("(Core) 4.60abc"), Some((4, 60)));
    assert_eq!(parse_graphics_version("4 3.3"), None);
    assert_eq!(parse_graphics_version("4."), None);
    assert_eq!(parse_graphics_version("256.0"), None);
    assert_eq!(parse_graphics_version("4.256"), None);
    assert_eq!(parse_graphics_version("4x.1"), None);
    assert_eq!(parse_graphics_version("v4.1"), None);
    assert_eq!(parse_graphics_version(""), None);
    assert!(graphics_version_supported("4.0", false));
    assert!(!graphics_version_supported("2.9", true));
}

#[test]
fn shaders_suit_the_library() {
    assert_eq!(shader_preamble(&diagnostics("4.6 Mesa")), Ok(DESKTOP_PREAMBLE));
    assert_eq!(shader_preamble(&diagnostics("OpenGL ES 3.1")), Ok(GLES_PREAMBLE));
    assert_eq!(
        shader_preamble(&diagnostics("2.1 Mesa")),
        Err("OpenGL 3.3 or newer is required; detected 2.1 Mesa (R)".to_owned())
    );
    assert_eq!(
        shader_preamble(&diagnostics("OpenGL ES 2.0")),
        Err("OpenGL ES 3.0 or newer is required; detected OpenGL ES 2.0 (R)".to_owned())
    );
}

#[test]
fn framebuffer_config_rank_prefers_hardware_then_minimum_samples() {
    assert!(framebuffer_config_rank(true, 0) > framebuffer_config_rank(true, 8));
    assert!(framebuffer_config_rank(true, 8) > framebuffer_config_rank(false, 0));
    assert!(framebuffer_config_rank(false, 0) > framebuffer_config_rank(false, 8));
}

#[test]
fn last_of_the_best_framebuffers_is_taken() {
    let config = |hardware_accelerated, num_samples| FramebufferConfig {
        hardware_accelerated,
        num_samples,
    };
    assert_eq!(preferred_framebuffer(&[]), None);
    assert_eq!(
        preferred_framebuffer(&[config(false, 0), config(true, 4), config(true, 0), config(true, 0)]),
        Some(3)
    );
    assert_eq!(preferred_framebuffer(&[config(true, 0), config(true, 8)]), Some(0));
}

#[test]
fn linux_priority_fallback_stays_within_each_graphics_plan() {
    let attempts = gl_context_attempts();
    assert_eq!(
        attempts,
        [
            (GlContextPlan::Desktop { major: 4, minor: 1 }, GlContextPriorityRequest::High),
            (GlContextPlan::Desktop { major: 4, minor: 1 }, GlContextPriorityRequest::Default),
            (GlContextPlan::Desktop { major: 3, minor: 3 }, GlContextPriorityRequest::High),
            (GlContextPlan::Desktop { major: 3, minor: 3 }, GlContextPriorityRequest::Default),
            (GlContextPlan::Gles { major: 3, minor: 0 }, GlContextPriorityRequest::High),
            (GlContextPlan::Gles { major: 3, minor: 0 }, GlContextPriorityRequest::Default),
        ]
    );
}

#[test]
fn context_plan_order_matches_rriter_linux_fallbacks() {
    assert_eq!(
        gl_context_plans(),
        [
            GlContextPlan::Desktop { major: 4, minor: 1 },
            GlContextPlan::Desktop { major: 3, minor: 3 },
            GlContextPlan::Gles { major: 3, minor: 0 },
        ]
    );
}

#[test]
fn refused_contexts_are_listed() {
    let mut search = ContextSearch::new();
    let mut tried = 0;
    while search.next().is_some() {
        search.refused("no");
        tried += 1;
    }
    assert_eq!(tried, gl_context_plans().len() * gl_context_priority_requests().len());
    assert_eq!(
        search.failure(),
        "failed to create supported graphics context:\n\
         OpenGL 4.1 Core / High priority: no\n\
         OpenGL 4.1 Core / Default priority: no\n\
         OpenGL 3.3 Core / High priority: no\n\
         OpenGL 3.3 Core / Default priority: no\n\
         OpenGL ES 3.0 / High priority: no\n\
         OpenGL ES 3.0 / Default priority: no\n"
    );
    assert_eq!(
        GlContextPlan::Gles { major: 2, minor: 0 }.label(),
        "unsupported graphics plan"
    );
}

#[test]
fn report_names_what_was_asked_for_and_given() {
    let report = ContextReport {
        plan: GlContextPlan::Desktop { major: 3, minor: 3 },
        request: GlContextPriorityRequest::High,
        priority: ContextPriority::Medium,
        hardware_accelerated: true,
        num_samples: 0,
        depth_size: 24,
        stencil_size: 8,
        alpha_size: 10,
        srgb_capable: false,
        transparency: Some(false),
        width: 1100,
        height: 720,
        swap_interval_applied: true,
    };
    assert_eq!(
        diagnostics_report(&report, &diagnostics("3.3"), "1.250"),
        "Context request: OpenGL 3.3 Core / High priority\nActual context priority: Medium\n\
         OpenGL: 3.3\nGLSL: S\nGPU: V / R\n\
         Framebuffer: hardware=true samples=0 depth=24 stencil=8 alpha=10 srgb=false transparent=Some(false)\n\
         Framebuffer size: 1100x720\nScale factor: 1.250\nSwap interval: Wait(1), applied=true"
    );
    assert_eq!(priority_label(ContextPriority::Low), "Low");
    assert_eq!(priority_label(ContextPriority::High), "High");
    assert_eq!(priority_label(ContextPriority::Realtime), "Realtime");
}

#[test]
fn emoji_default_selection_keeps_text_symbols_text_first() {
    assert!(!default_emoji_presentation('✔'));
    assert!(!default_emoji_presentation('✓'));
    assert!(default_emoji_presentation('✅'));
    assert!(default_emoji_presentation('😀'));
}

#[test]
fn pty_resize_is_needed_only_when_terminal_geometry_changes() {
    assert!(!terminal_dimensions_changed(120, 40, 120, 40));
    assert!(terminal_dimensions_changed(120, 40, 121, 40));
    assert!(terminal_dimensions_changed(120, 40, 120, 41));
    assert_eq!(pty_dimension(70_000), u16::MAX);
    assert_eq!(pty_dimension(80), 80);
}

#[test]
fn terminal_forced_text_check_marks_do_not_force_emoji() {
    assert!(terminal_force_text_presentation('✔'));
    assert!(terminal_force_text_presentation('✓'));
    assert!(!terminal_force_text_presentation('✅'));
}

#[test]
fn cells_can_choose_how_characters_look() {
    assert_eq!(terminal_color_wish('✔', CellPresentation::Emoji), Some(false));
    assert_eq!(terminal_color_wish('☀', CellPresentation::Emoji), Some(true));
    assert_eq!(terminal_color_wish('☀', CellPresentation::Text), Some(false));
    assert_eq!(terminal_color_wish('☀', CellPresentation::Auto), None);
    assert!(one_line_ui_char_is_zero_width('\u{200D}'));
    assert!(!one_line_ui_char_is_zero_width('a'));
}

#[test]
fn visible_rows_only_cover_viewport_plus_one_overscan_row() {
    let range = |total, visible, scroll: f32, char_h: f32| {
        visible_row_range(total, visible, (scroll.max(0.0) / char_h).floor() as usize)
    };
    assert_eq!(range(10_000, 30, 0.0, 20.0), (9969, 10000));
    assert_eq!(range(10_000, 30, 40.0, 20.0), (9967, 9998));
    let (start, end) = range(2, 30, 0.0, 20.0);
    assert!(end - start <= 2);
    assert_eq!(visible_row_range(0, 30, 0), (0, 0));
    assert_eq!(visible_row_range(5, 0, 0), (0, 0));
    assert_eq!(visible_row_range(5, 2, 99), (0, 1));
}

#[test]
fn kde_selection_color_parser_accepts_exact_group_key_and_whitespace() {
    let content = "[Other]\nBackgroundNormal=1,2,3\n  [Colors:Selection]  \n BackgroundNormal = 114, 89, 175 \n";
    assert_eq!(
        parse_kde_color(content, "Colors:Selection", "BackgroundNormal"),
        Some(DEFAULT_ACCENT_COLOR)
    );
    assert_eq!(
        parse_kde_color(content, "Other", "BackgroundNormal"),
        Some([1.0 / 255.0, 2.0 / 255.0, 3.0 / 255.0, 1.0])
    );
}

#[test]
fn kde_selection_color_parser_rejects_wrong_or_invalid_values() {
    assert!(parse_kde_color(
        "[Colors:Window]\nBackgroundNormal=114,89,175",
        "Colors:Selection",
        "BackgroundNormal"
    )
    .is_none());
    assert!(parse_kde_color(
        "[Colors:Selection]\nForegroundNormal=114,89,175",
        "Colors:Selection",
        "BackgroundNormal"
    )
    .is_none());
    for value in ["nope,89,175", "256,89,175", "114,-1,175", "114,89,175,4"] {
        let content = format!("[Colors:Selection]\nBackgroundNormal={value}");
        assert!(
            parse_kde_color(&content, "Colors:Selection", "BackgroundNormal").is_none()
        );
    }
}

#[test]
fn first_value_of_the_group_counts() {
    let content = "[Colors:Selection]\r\nBackgroundNormal=1, 2 ,3\r\nBackgroundNormal=4,5,6\n[X]\n";
    assert_eq!(
        kde_color_parts(content, "Colors:Selection", "BackgroundNormal"),
        Some(ColorParts { red: "1".to_owned(), green: "2".to_owned(), blue: "3".to_owned() })
    );
    let accent = |content: &str| color_of(terminal_accent_from_kde_content(Some(content)));
    assert_eq!(accent(content), [1.0 / 255.0, 2.0 / 255.0, 3.0 / 255.0, 1.0]);
    assert_eq!(accent("[Colors:Selection]\nBackgroundNormal=1,2"), DEFAULT_ACCENT_COLOR);
    assert_eq!(accent("[Colors:Selection]\nBackgroundNormal=invalid"), DEFAULT_ACCENT_COLOR);
    assert_eq!(accent("[Colors:Selection]\nBackgroundNormal=inf,1,1"), DEFAULT_ACCENT_COLOR);
    assert_eq!(accent("[Colors:Selection]\nBackgroundNormal=255,-0,25.5e-1"), [
        1.0,
        0.0,
        2.55 / 255.0,
        1.0
    ]);
    assert_eq!(color_of(terminal_accent_from_kde_content(None)), DEFAULT_ACCENT_COLOR);
}

#[test]
fn renderer_batch_and_atlas_bounds_match_rriter_baseline() {
    assert_eq!(ATLAS_SIZE_W, 1024);
    assert_eq!(ATLAS_SIZE_H, 1024);
    assert_eq!(PRIMARY_ATLAS_INTERNAL_FORMAT, glow::R8);
    assert_eq!(PRIMARY_ATLAS_UPLOAD_FORMAT, glow::RED);
    assert!(MAX_VERTICES >= 32_768);
}

#[test]
fn batch_is_full_at_its_bound() {
    assert!(!batch_is_full(MAX_VERTICES - 6, 6));
    assert!(batch_is_full(MAX_VERTICES - 5, 6));
    assert!(batch_is_full(usize::MAX, usize::MAX));
}

#[test]
fn pictures_fill_rows_and_then_the_texture() {
    let mut cursor = AtlasCursor::new();
    let first = cursor.place(500, 10);
    assert_eq!(first.rect, Some(AtlasRect { x: 2, y: 2, width: 500, height: 10 }));
    let second = cursor.place(500, 30);
    assert_eq!(second.rect, Some(AtlasRect { x: 504, y: 2, width: 500, height: 30 }));
    let third = cursor.place(100, 5);
    assert_eq!(third.rect, Some(AtlasRect { x: 2, y: 34, width: 100, height: 5 }));
    let large = cursor.place(100, 1000);
    assert!(large.emptied);
    assert_eq!(large.rect, Some(AtlasRect { x: 2, y: 2, width: 100, height: 1000 }));
    assert_eq!(cursor.place(1021, 1).rect, None);
    assert_eq!(cursor.place(1020, 1020).rect.map(|rect| rect.width), Some(1020));
}

#[test]
fn pictures_are_kept_by_character_and_wish() {
    let mut cache = GlyphCache::new();
    assert_eq!(cache.glyph('a', None), None);
    cache.keep_glyph('a', None, 7);
    cache.keep_glyph('a', Some(true), 8);
    cache.keep_ui_glyph('a', 9);
    cache.keep_icon(ICONS - 1, 10);
    assert_eq!(cache.glyph('a', None), Some(7));
    assert_eq!(cache.glyph('a', Some(true)), Some(8));
    assert_eq!(cache.glyph('a', Some(false)), None);
    assert_eq!(cache.glyph('b', None), None);
    assert_eq!(cache.ui_glyph('a'), Some(9));
    assert_eq!(cache.icon(ICONS - 1), Some(10));
    cache.keep_glyph('a', None, 11);
    assert_eq!(cache.glyph('a', None), Some(11));
    cache.reset_color_atlas();
    assert_eq!(cache.glyph('a', None), None);
    assert_eq!(cache.ui_glyph('a'), None);
    assert_eq!(cache.icon(ICONS - 1), Some(10));
    cache.reset_atlases();
    assert_eq!(cache.icon(ICONS - 1), None);
}

#[test]
fn pictures_go_to_the_texture_of_their_kind() {
    let mut cache = GlyphCache::new();
    assert_eq!(cache.finish_rasterized_glyph('a', None, false, true), GlyphOutcome::Missing);
    assert_eq!(
        cache.finish_rasterized_glyph('a', Some(Raster { image: None }), false, true),
        GlyphOutcome::Empty
    );
    assert_eq!(
        cache.finish_rasterized_glyph(' ', image(4, 4, false, 16), false, true),
        GlyphOutcome::Empty
    );
    assert_eq!(
        cache.finish_rasterized_glyph('a', image(0, 4, false, 0), false, true),
        GlyphOutcome::Empty
    );
    let rect = AtlasRect { x: 2, y: 2, width: 4, height: 4 };
    assert_eq!(
        cache.finish_rasterized_glyph('a', image(4, 4, false, 16), false, true),
        GlyphOutcome::Alpha(rect)
    );
    assert_eq!(
        cache.finish_rasterized_glyph('😀', image(4, 4, true, 64), true, true),
        GlyphOutcome::Color(rect)
    );
    assert_eq!(
        cache.finish_rasterized_glyph('😀', image(4, 4, true, 64), true, false),
        GlyphOutcome::Missing
    );
    assert_eq!(
        cache.finish_rasterized_glyph('a', image(4, 4, false, 15), false, true),
        GlyphOutcome::Missing
    );
    assert_eq!(cache.place_alpha(2000, 1, 2000), None);
    assert_eq!(cache.place_color(1, 1, 4, true).map(|rect| rect.x), Some(8));
}

#[test]
fn full_texture_is_emptied_with_everything_in_it() {
    let mut cache = GlyphCache::new();
    assert!(cache.place_alpha(1000, 1000, 1_000_000).is_some());
    cache.keep_glyph('a', None, 1);
    cache.keep_icon(0, 2);
    assert!(cache.place_alpha(1000, 1000, 1_000_000).is_some());
    assert_eq!(cache.glyph('a', None), None);
    assert_eq!(cache.icon(0), None);
}

#[test]
fn box_stands_in_for_missing_characters() {
    let mut cache = GlyphCache::new();
    assert_eq!(cache.next_step('a', None), GlyphStep::Rasterize(false));
    assert_eq!(cache.next_step('😀', None), GlyphStep::Rasterize(true));
    assert_eq!(cache.next_step('😀', Some(false)), GlyphStep::Rasterize(false));
    assert_eq!(cache.settle('a', None, None), GlyphStep::Substitute);
    assert_eq!(cache.settle(BOX, Some(false), None), GlyphStep::Skip);
    assert_eq!(cache.settle('a', None, Some(3)), GlyphStep::Draw(3));
    assert_eq!(cache.next_step('a', None), GlyphStep::Draw(3));
}

#[test]
fn fonts_are_tried_from_the_end_that_suits() {
    let order = |prefer_color| {
        (0..4).map(|step| font_at(3, prefer_color, step)).collect::<Vec<_>>()
    };
    assert_eq!(order(false), vec![Some(0), Some(1), Some(2), None]);
    assert_eq!(order(true), vec![Some(2), Some(1), Some(0), None]);
    assert!(has_glyph(1, 'a'));
    assert!(!has_glyph(0, 'a'));
    assert!(has_glyph(0, ' '));
    assert_eq!(raster_use('a', Some(false), false), RasterUse::Image);
    assert_eq!(raster_use('a', Some(true), false), RasterUse::Refused);
    assert_eq!(raster_use('a', Some(true), true), RasterUse::Image);
    assert_eq!(raster_use(' ', None, false), RasterUse::Room);
    assert_eq!(raster_use('a', None, false), RasterUse::Refused);
    assert_eq!(alpha_channel(&[1, 2, 3, 4, 5, 6, 7, 8, 9]), vec![4, 8]);
}

fn row_of(text: &str) -> Vec<Cell> {
    text.chars().map(|c| Cell { text: c.to_string(), wide_spacer: false }).collect()
}

#[test]
fn results_are_drawn_over_the_selection() {
    let mut row = row_of("abcdef");
    row[4].wide_spacer = true;
    let first = TerminalSearchMatch { start_x: 1, y: 2, end_x: 1 };
    let second = TerminalSearchMatch { start_x: 3, y: 2, end_x: 3 };
    let results = vec![first, second];
    assert_eq!(
        row_backgrounds(&row, 10, 2, Some((5, 2, 0, 2)), &results, (0, 2), Some(second)),
        vec![
            CellBackground::Selected,
            CellBackground::Match,
            CellBackground::Selected,
            CellBackground::ActiveMatch,
            CellBackground::ActiveMatch,
            CellBackground::Selected,
        ]
    );
    assert_eq!(
        row_backgrounds(&row, 2, 3, None, &results, (2, 2), None),
        vec![CellBackground::Own, CellBackground::Own]
    );
}

#[test]
fn selection_holds_both_of_its_ends() {
    let selection = Some((3, 1, 2, 3));
    assert!(!cell_selected(selection, 2, 1));
    assert!(cell_selected(selection, 3, 1));
    assert!(cell_selected(selection, 0, 2));
    assert!(cell_selected(selection, 2, 3));
    assert!(!cell_selected(selection, 3, 3));
    assert_eq!(
        cell_selected(Some((2, 3, 3, 1)), 3, 1),
        cell_selected(selection, 3, 1)
    );
    assert!(!cell_selected(None, 0, 0));
}

/// The colours that a cell is drawn with, for those of its text and of what lies behind it.
fn render_colors(
    inverse: bool,
    dim: bool,
    text: [f32; 4],
    ground: [f32; 4],
    default_background: bool,
) -> ([f32; 4], Option<[f32; 4]>) {
    let paint = cell_paint(inverse, dim, default_background);
    let color = |which: CellColor| if which == CellColor::Text { text } else { ground };
    let mut character = color(paint.character);
    if paint.dim {
        for part in &mut character[..3] {
            *part *= 0.66;
        }
    }
    (character, paint.fill.map(color))
}

#[test]
fn inverse_colors_preserve_default_background_identity_and_explicit_ansi_colors() {
    let window = [0.1, 0.1, 0.2, 1.0];
    let foreground = [0.9, 0.9, 0.9, 1.0];
    let (default_fg, default_bg) = render_colors(true, false, foreground, window, true);
    assert_eq!(default_fg, window);
    assert_eq!(default_bg, Some(foreground));

    let red = [0.8, 0.0, 0.0, 1.0];
    let blue = [0.0, 0.0, 0.8, 1.0];
    let black = [0.0, 0.0, 0.0, 1.0];
    let (fg, bg) = render_colors(true, false, red, blue, false);
    assert_eq!(fg, blue);
    assert_eq!(bg, Some(red));
    assert_ne!(default_fg, black);
}

#[test]
fn dim_affects_only_effective_foreground_rgb() {
    let source = [150.0 / 255.0, 120.0 / 255.0, 90.0 / 255.0, 1.0];
    let blue = [0.0, 0.0, 0.8, 1.0];
    let (fg, bg) = render_colors(false, true, source, blue, false);
    assert!((fg[0] - source[0] * 0.66).abs() < 0.0001);
    assert!((fg[1] - source[1] * 0.66).abs() < 0.0001);
    assert!((fg[2] - source[2] * 0.66).abs() < 0.0001);
    assert_eq!(fg[3], source[3]);
    assert_eq!(bg, Some(blue));
}

#[test]
fn inverse_cells_swap_their_colors() {
    assert_eq!(
        cell_paint(true, false, true),
        CellPaint { character: CellColor::Ground, dim: false, fill: Some(CellColor::Text) }
    );
    assert_eq!(
        cell_paint(false, true, true),
        CellPaint { character: CellColor::Text, dim: true, fill: None }
    );
    assert_eq!(
        cell_paint(false, false, false),
        CellPaint { character: CellColor::Text, dim: false, fill: Some(CellColor::Ground) }
    );
}

#[test]
fn overlay_counts_results() {
    let mut search = TerminalSearchState::default();
    search.open();
    let overlay = search_overlay(&search, true);
    assert_eq!(overlay.counter, "");
    assert!(overlay.caret);
    search.insert_text("abc");
    assert_eq!(search_overlay(&search, true).counter, "Нет");
    assert_eq!(search_overlay(&search, false).counter, "");
    search.results =
        vec![TerminalSearchMatch { start_x: 0, y: 0, end_x: 0 }; 12];
    search.current = Some(9);
    search.input.selection_anchor = Some(1);
    let overlay = search_overlay(&search, true);
    assert_eq!(overlay.counter, "10/12");
    assert_eq!(overlay.selection, Some((1, 3)));
    assert!(!overlay.caret);
}

#[test]
fn close_button_is_hit_before_its_tab() {
    let tab = |close, body| TabContact { close, body };
    assert_eq!(
        terminal_tab_hit(&[tab(false, false), tab(true, true)], true),
        TerminalTabHit::Close(1)
    );
    assert_eq!(
        terminal_tab_hit(&[tab(false, true), tab(true, true)], true),
        TerminalTabHit::Body(0)
    );
    assert_eq!(terminal_tab_hit(&[tab(false, false)], true), TerminalTabHit::Add);
    assert_eq!(terminal_tab_hit(&[], false), TerminalTabHit::Outside);
    assert_eq!(tab_reveal_target(3, 3, true), RevealTarget::Start);
    assert_eq!(tab_reveal_target(2, 3, true), RevealTarget::End);
    assert_eq!(tab_reveal_target(2, 3, false), RevealTarget::Tab);
}
