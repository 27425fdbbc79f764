use voxel::shader::{EntryPoint, Shader, ShaderStage};
use voxel::shader_macro::{shader_name, DebugInfoLevel, MacroInput, MacroParseError, MacroToken, OptLvl, OptimizationLevel};

fn s(v: &str) -> MacroToken {
    MacroToken::Str(v.to_string())
}

fn id(v: &str) -> MacroToken {
    MacroToken::Ident(v.to_string())
}

const C: MacroToken = MacroToken::Comma;

#[test]
fn parse_plain_input() {
    let toks = vec![s("shaders"), C, s("a.slang"), C, s("b.slang")];
    let m = MacroInput::parse(&toks).unwrap();
    assert_eq!(m.base_path, "shaders");
    assert_eq!(m.files, vec!["a.slang".to_string(), "b.slang".to_string()]);
    assert_eq!(m.debug, DebugInfoLevel::Disabled);
    assert_eq!(m.opt_level, OptimizationLevel::Default);
}

#[test]
fn parse_debug_and_level() {
    let toks = vec![s("dir"), C, id("debug"), C, id("high"), C, s("x.slang"), C];
    let m = MacroInput::parse(&toks).unwrap();
    assert_eq!(m.debug, DebugInfoLevel::Maximal);
    assert_eq!(m.opt_level, OptimizationLevel::High);
    assert_eq!(m.files, vec!["x.slang".to_string()]);

    let toks = vec![s("dir"), C, id("none"), s("x.slang")];
    let m = MacroInput::parse(&toks).unwrap();
    assert_eq!(m.opt_level, OptimizationLevel::Disabled);
    assert_eq!(m.files, vec!["x.slang".to_string()]);

    let toks = vec![s("dir"), C, id("default")];
    let m = MacroInput::parse(&toks).unwrap();
    assert_eq!(m.opt_level, OptimizationLevel::Default);
    assert!(m.files.is_empty());
}

#[test]
fn parse_errors() {
    assert_eq!(MacroInput::parse(&vec![]), Err(MacroParseError::ExpectedStringLiteral(0)));
    assert_eq!(MacroInput::parse(&vec![id("dir")]), Err(MacroParseError::ExpectedStringLiteral(0)));
    assert_eq!(MacroInput::parse(&vec![s("dir")]), Err(MacroParseError::ExpectedComma(1)));
    assert_eq!(MacroInput::parse(&vec![s("dir"), s("a")]), Err(MacroParseError::ExpectedComma(1)));
    assert_eq!(MacroInput::parse(&vec![s("dir"), C, id("debug")]), Err(MacroParseError::ExpectedComma(3)));
    assert_eq!(MacroInput::parse(&vec![s("dir"), C, s("a"), s("b")]), Err(MacroParseError::ExpectedComma(3)));
    assert_eq!(MacroInput::parse(&vec![s("dir"), C, s("a"), C, C]), Err(MacroParseError::ExpectedStringLiteral(4)));
    assert_eq!(MacroInput::parse(&vec![s("dir"), C, id("fast"), s("a")]), Err(MacroParseError::ExpectedStringLiteral(2)));
    assert_eq!(MacroInput::parse(&vec![s("dir"), C, MacroToken::Other]), Err(MacroParseError::ExpectedStringLiteral(2)));
}

#[test]
fn opt_level_keywords() {
    let toks = vec![id("high"), id("none"), id("default"), id("other")];
    assert_eq!(OptLvl::parse(&toks, 0), (OptLvl(OptimizationLevel::High), 1));
    assert_eq!(OptLvl::parse(&toks, 1), (OptLvl(OptimizationLevel::Disabled), 2));
    assert_eq!(OptLvl::parse(&toks, 2), (OptLvl(OptimizationLevel::Default), 3));
    assert_eq!(OptLvl::parse(&toks, 3), (OptLvl(OptimizationLevel::Default), 3));
    assert_eq!(OptLvl::parse(&toks, 9), (OptLvl(OptimizationLevel::Default), 9));
}

#[test]
fn shader_tables() {
    static ENTRY_POINTS: [EntryPoint; 2] = [
        EntryPoint { name: "vs_main", stage: ShaderStage::Vertex },
        EntryPoint { name: "fs_main", stage: ShaderStage::Fragment },
    ];
    static CODE: [u8; 4] = [3, 2, 35, 7];
    let shader = Shader { name: "triangle", code: &CODE, entry_points: &ENTRY_POINTS };
    assert_eq!(shader.name, "triangle");
    assert_eq!(shader.code.len(), 4);
    assert_eq!(shader.entry_points[1].stage, ShaderStage::Fragment);
    assert_ne!(shader.entry_points[0].stage, ShaderStage::Compute);
}

#[test]
fn shader_names_drop_the_slang_suffix() {
    assert_eq!(shader_name("triangle.slang"), "triangle");
    assert_eq!(shader_name("post/blur.slang"), "post/blur");
    assert_eq!(shader_name("compute.glsl"), "compute.glsl");
    assert_eq!(shader_name(".slang"), "");
    assert_eq!(shader_name("slang"), "slang");
    assert_eq!(shader_name("a.slang.slang"), "a.slang");
    assert_eq!(shader_name("né.slang"), "né");
    assert_eq!(shader_name(""), "");
}
