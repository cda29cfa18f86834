use drawing::utils::{BuildError, RenderPipelineBuilder};

type Builder = RenderPipelineBuilder<&'static str, u8, &'static str, &'static str, u16, char, i8>;

#[test]
fn builder_without_a_vertex_stage_is_refused() {
    assert!(matches!(Builder::new().build(), Err(BuildError::MissingVertex)));
    let built = Builder::new()
        .label("lines")
        .layout(3)
        .fragment("fs_main")
        .depth(24, '<')
        .topology(-1)
        .build();
    assert_eq!(built.err(), Some(BuildError::MissingVertex));
}

#[test]
fn builder_hands_out_what_it_was_given() {
    let parts = Builder::new()
        .label("lines")
        .layout(3)
        .vertex("vs_main")
        .fragment("fs_main")
        .topology(-1)
        .build()
        .ok()
        .expect("a vertex stage was given");
    assert_eq!(parts.label, Some("lines"));
    assert_eq!(parts.layout, Some(3));
    assert_eq!(parts.vertex, "vs_main");
    assert_eq!(parts.fragment, Some("fs_main"));
    assert_eq!(parts.topology, Some(-1));
    assert!(parts.depth_stencil.is_none());
}

#[test]
fn builder_with_a_vertex_stage_alone_leaves_the_rest_open() {
    let parts = Builder::new().vertex("vs").build().ok().expect("a vertex stage was given");
    assert_eq!(parts.vertex, "vs");
    assert!(parts.label.is_none());
    assert!(parts.layout.is_none());
    assert!(parts.fragment.is_none());
    assert!(parts.depth_stencil.is_none());
    assert!(parts.topology.is_none());
}

#[test]
fn later_setters_replace_earlier_ones() {
    let parts = Builder::new()
        .vertex("first")
        .label("a")
        .vertex("second")
        .label("b")
        .build()
        .ok()
        .expect("a vertex stage was given");
    assert_eq!(parts.vertex, "second");
    assert_eq!(parts.label, Some("b"));
}

#[test]
fn first_depth_call_decides_the_comparison() {
    let parts = Builder::new()
        .vertex("vs")
        .depth(24, '<')
        .build()
        .ok()
        .expect("a vertex stage was given");
    let depth = parts.depth_stencil.expect("depth was asked for");
    assert_eq!(depth.format, 24);
    assert!(depth.depth_write_enabled);
    assert_eq!(depth.depth_compare, '<');

    let parts = Builder::new()
        .vertex("vs")
        .depth(24, '<')
        .depth(32, '>')
        .build()
        .ok()
        .expect("a vertex stage was given");
    let depth = parts.depth_stencil.expect("depth was asked for");
    assert_eq!(depth.format, 32);
    assert!(depth.depth_write_enabled);
    assert_eq!(depth.depth_compare, '<');
}
