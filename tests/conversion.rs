use ultimate_tex_cli::footer::FooterRecord;
use ultimate_tex_cli::kind::{classify_extension, is_nutexb_path, output_kind, OutputKind};
use ultimate_tex_cli::paths::{
    ensure_unique_filename, last_index_of, numbered_path, split_path, substitute_wildcard,
};
use ultimate_tex_cli::request::{ConversionRequest, RequestError, Start};
use ultimate_tex_cli::settings::{mipmap_policy, resolve_format, MipmapPolicy};
use ultimate_tex_cli::text::{contains_char, push_decimal, replace_all, str_equal};

fn request(input: &str, output: Option<&str>) -> ConversionRequest {
    ConversionRequest {
        input: input.to_string(),
        output: output.map(|o| o.to_string()),
        info: false,
        format: None,
        no_mipmaps: false,
        unique_filename: false,
        nutexb_name: None,
    }
}

fn footer() -> FooterRecord {
    FooterRecord {
        name: "def_001_col".to_string(),
        width: 512,
        height: 256,
        depth: 1,
        image_format: "BC7Unorm".to_string(),
        unk2: 4,
        mipmap_count: 10,
        unk3: 4096,
        layer_count: 1,
        data_size: 174776,
        version: (1, 2),
    }
}

#[test]
fn classify_known_extensions() {
    assert_eq!(classify_extension("nutexb"), OutputKind::Nutexb);
    assert_eq!(classify_extension("bntx"), OutputKind::Bntx);
    assert_eq!(classify_extension("dds"), OutputKind::Dds);
    assert_eq!(classify_extension("png"), OutputKind::Image);
    assert_eq!(classify_extension("NUTEXB"), OutputKind::Image);
    assert_eq!(classify_extension(""), OutputKind::Image);
}

#[test]
fn output_kind_ignores_case() {
    assert_eq!(output_kind("out.NUTEXB"), Some(OutputKind::Nutexb));
    assert_eq!(output_kind("dir/tex.Dds"), Some(OutputKind::Dds));
    assert_eq!(output_kind("a.BnTx"), Some(OutputKind::Bntx));
    assert_eq!(output_kind("a/b.PNG"), Some(OutputKind::Image));
}

#[test]
fn output_kind_needs_an_extension() {
    assert_eq!(output_kind("noext"), None);
    assert_eq!(output_kind(".hidden"), None);
    assert_eq!(output_kind("dir.d/file"), None);
    assert_eq!(output_kind(""), None);
}

#[test]
fn nutexb_inputs_are_recognised() {
    assert!(is_nutexb_path("icon.nutexb"));
    assert!(is_nutexb_path("dir/Icon.NuTeXb"));
    assert!(!is_nutexb_path("texture.png"));
    assert!(!is_nutexb_path("nutexb"));
    assert!(!is_nutexb_path("nutexb/file"));
}

#[test]
fn split_path_parts() {
    let p = split_path("dir/sub/file.tar.gz").unwrap();
    assert_eq!(p.dir, "dir/sub/");
    assert_eq!(p.stem, "file.tar");
    assert_eq!(p.ext, "gz");
    let q = split_path("out.nutexb").unwrap();
    assert_eq!(q.dir, "");
    assert_eq!(q.stem, "out");
    assert_eq!(q.ext, "nutexb");
    let r = split_path("/abs/x.").unwrap();
    assert_eq!(r.dir, "/abs/");
    assert_eq!(r.stem, "x");
    assert_eq!(r.ext, "");
    assert!(split_path("a/..").is_none());
    assert!(split_path("a/.png").is_none());
    assert!(split_path("a/").is_none());
}

#[test]
fn last_index_finds_last() {
    assert_eq!(last_index_of("a.b.c", '.'), Some(3));
    assert_eq!(last_index_of("abc", '.'), None);
    assert_eq!(last_index_of("", '.'), None);
}

#[test]
fn wildcard_replaced_everywhere() {
    assert_eq!(substitute_wildcard("*.png", Some("icon_01")), "icon_01.png");
    assert_eq!(substitute_wildcard("out/*_*.dds", Some("a")), "out/a_a.dds");
    assert_eq!(substitute_wildcard("*.png", None), "*.png");
}

#[test]
fn no_marker_path_is_kept() {
    assert_eq!(substitute_wildcard("out/plain.png", Some("name")), "out/plain.png");
    assert_eq!(substitute_wildcard("out/plain.png", None), "out/plain.png");
}

#[test]
fn unique_filename_keeps_free_path() {
    let r = ensure_unique_filename("icon_01.png", |_p: &str| false);
    assert_eq!(r.unwrap(), "icon_01.png");
}

#[test]
fn unique_filename_picks_smallest_free_suffix() {
    let existing = vec!["dir/icon.png".to_string(), "dir/icon_1.png".to_string(), "dir/icon_2.png".to_string()];
    let r = ensure_unique_filename("dir/icon.png", |p: &str| existing.iter().any(|e| e == p));
    assert_eq!(r.unwrap(), "dir/icon_3.png");
    let gap = vec!["a.png".to_string(), "a_2.png".to_string()];
    let s = ensure_unique_filename("a.png", |p: &str| gap.iter().any(|e| e == p));
    assert_eq!(s.unwrap(), "a_1.png");
}

#[test]
fn numbered_path_layout() {
    let parts = split_path("textures/wall.tga").unwrap();
    assert_eq!(numbered_path(&parts, 12), "textures/wall_12.tga");
    assert_eq!(numbered_path(&parts, 0), "textures/wall_0.tga");
}

#[test]
fn decimal_digits() {
    let mut s = "n=".to_string();
    push_decimal(&mut s, 0);
    assert_eq!(s, "n=0");
    let mut t = String::new();
    push_decimal(&mut t, 18446744073709551615);
    assert_eq!(t, "18446744073709551615");
    let mut u = String::new();
    push_decimal(&mut u, 1020);
    assert_eq!(u, "1020");
}

#[test]
fn text_helpers() {
    assert!(str_equal("abc", "abc"));
    assert!(!str_equal("abc", "abd"));
    assert!(!str_equal("abc", "ab"));
    assert!(contains_char("a*b", '*'));
    assert!(!contains_char("ab", '*'));
    assert_eq!(replace_all("x-y-", '-', "::"), "x::y::");
    assert_eq!(replace_all("", '-', "::"), "");
}

#[test]
fn rewrite_name_keeps_other_fields() {
    let f = footer();
    let g = f.rewrite_name("out".to_string());
    assert_eq!(g.name, "out");
    assert_eq!(g.width, 512);
    assert_eq!(g.height, 256);
    assert_eq!(g.depth, 1);
    assert_eq!(g.image_format, "BC7Unorm");
    assert_eq!(g.unk2, 4);
    assert_eq!(g.mipmap_count, 10);
    assert_eq!(g.unk3, 4096);
    assert_eq!(g.layer_count, 1);
    assert_eq!(g.data_size, 174776);
    assert_eq!(g.version, (1, 2));
}

#[test]
fn report_lists_the_fields() {
    let text = footer().report("BC7RgbaUnorm");
    let expected = "\nNutexbFooter Information:\n\
        Name: def_001_col\n\
        Dimensions: 512x256x1\n\
        NutexbFormat: BC7Unorm\n\
        ImageFormat: BC7RgbaUnorm\n\
        Mipmap Count: 10\n\
        Layer Count: 1\n\
        Data Size: 174776 bytes\n\
        Version: (1, 2)\n";
    assert_eq!(text, expected);
}

#[test]
fn info_on_non_container_is_refused() {
    let mut req = request("texture.png", None);
    req.info = true;
    assert_eq!(req.start(), Err(RequestError::InfoOnNonContainer));
}

#[test]
fn info_on_container_only_reports() {
    let mut req = request("a.nutexb", None);
    req.info = true;
    assert_eq!(req.start(), Ok(Start::ShowInfo));
    let text = footer().report("BC7RgbaUnorm");
    assert_eq!(text.lines().filter(|l| l.contains(": ")).count(), 8);
}

#[test]
fn start_needs_output() {
    let req = request("texture.png", None);
    assert_eq!(req.start(), Err(RequestError::MissingOutput));
    assert!(matches!(req.plan(None), Err(RequestError::MissingOutput)));
}

#[test]
fn start_reads_name_for_wildcard_container() {
    assert_eq!(request("icon.nutexb", Some("*.png")).start(), Ok(Start::ReadInputName));
    assert_eq!(request("icon.png", Some("*.png")).start(), Ok(Start::Convert));
    assert_eq!(request("icon.nutexb", Some("x.png")).start(), Ok(Start::Convert));
}

#[test]
fn png_to_nutexb_names_footer_after_output() {
    let plan = request("texture.png", Some("out.nutexb")).plan(None).unwrap();
    assert_eq!(plan.output, "out.nutexb");
    assert_eq!(plan.kind, OutputKind::Nutexb);
    assert_eq!(plan.footer_name, "out");
    assert_eq!(plan.format_name, "BC7RgbaUnorm");
    assert_eq!(plan.format, image_dds::ImageFormat::BC7RgbaUnorm);
    assert_eq!(plan.mipmaps, MipmapPolicy::GeneratedAutomatic);
    assert!(!plan.unique);
    assert!(!plan.report_input);
}

#[test]
fn wildcard_with_unique_filename() {
    let mut req = request("icon.nutexb", Some("*.png"));
    req.unique_filename = true;
    assert_eq!(req.start(), Ok(Start::ReadInputName));
    let plan = req.plan(Some("icon_01")).unwrap();
    assert_eq!(plan.output, "icon_01.png");
    assert_eq!(plan.kind, OutputKind::Image);
    assert!(plan.unique);
    assert!(plan.report_input);
    let existing = vec!["icon_01.png".to_string()];
    let path = ensure_unique_filename(plan.output.as_str(), |p: &str| existing.iter().any(|e| e == p));
    assert_eq!(path.unwrap(), "icon_01_1.png");
}

#[test]
fn wildcard_kept_for_other_inputs() {
    let plan = request("icon.png", Some("*.dds")).plan(Some("ignored")).unwrap();
    assert_eq!(plan.output, "*.dds");
    assert_eq!(plan.kind, OutputKind::Dds);
}

#[test]
fn custom_footer_name_and_format() {
    let mut req = request("a.png", Some("dir/b.nutexb"));
    req.nutexb_name = Some("custom".to_string());
    req.format = Some("BC1RgbaUnorm".to_string());
    req.no_mipmaps = true;
    let plan = req.plan(None).unwrap();
    assert_eq!(plan.footer_name, "custom");
    assert_eq!(plan.format, image_dds::ImageFormat::BC1RgbaUnorm);
    assert_eq!(plan.mipmaps, MipmapPolicy::Disabled);
}

#[test]
fn unique_only_for_images() {
    let mut req = request("a.png", Some("b.bntx"));
    req.unique_filename = true;
    let plan = req.plan(None).unwrap();
    assert_eq!(plan.kind, OutputKind::Bntx);
    assert!(!plan.unique);
}

#[test]
fn invalid_format_is_refused() {
    let mut req = request("a.png", Some("b.dds"));
    req.format = Some("bc7rgbaunorm".to_string());
    assert!(matches!(req.plan(None), Err(RequestError::InvalidFormatName)));
}

#[test]
fn output_without_extension_is_refused() {
    assert!(matches!(request("a.png", Some("out")).plan(None), Err(RequestError::MissingExtension)));
}

#[test]
fn format_and_mipmap_defaults() {
    let (f, name) = resolve_format(&None).unwrap();
    assert_eq!(f, image_dds::ImageFormat::BC7RgbaUnorm);
    assert_eq!(name, "BC7RgbaUnorm");
    assert!(resolve_format(&Some("Nope".to_string())).is_none());
    assert_eq!(mipmap_policy(false), MipmapPolicy::GeneratedAutomatic);
    assert_eq!(mipmap_policy(true), MipmapPolicy::Disabled);
}
