//! What the program reads of the machine it runs on: theme, accent colour,
//! graphics adapter, processor and memory.

use vstd::prelude::*;
use vstd::string::StringExecFns;
use vstd::string::StrSliceExecFns;
use crate::text::{
    chars_of, skip_whitespace, skip_whitespace_back, trim, trim_range, trimmed, whitespace,
};

verus! {

/// Bytes in a gibibyte.
pub const GIB: u64 = 0x4000_0000;

/// The accent colour used when the system gives none.
pub const DEFAULT_ACCENT: &'static str = "#0078d4";

/// The processor, graphics adapter and memory of the machine. Sizes are in
/// tenths of a gibibyte.
#[derive(Clone, Debug)]
pub struct SystemSpecs {
    pub cpu_model: String,
    pub gpu_model: String,
    pub gpu_vram_tenths_gb: Option<u64>,
    pub total_ram_tenths_gb: u64,
}

/// A decoded icon: 8-bit RGBA pixels, row by row.
#[derive(Clone, Debug)]
pub struct IconImage {
    pub rgba: Vec<u8>,
    pub width: u32,
    pub height: u32,
}

/// The lower-case hexadecimal digit for a value below 16.
pub open spec fn hex_char(n: int) -> char {
    if n == 0 {
        '0'
    } else if n == 1 {
        '1'
    } else if n == 2 {
        '2'
    } else if n == 3 {
        '3'
    } else if n == 4 {
        '4'
    } else if n == 5 {
        '5'
    } else if n == 6 {
        '6'
    } else if n == 7 {
        '7'
    } else if n == 8 {
        '8'
    } else if n == 9 {
        '9'
    } else if n == 10 {
        'a'
    } else if n == 11 {
        'b'
    } else if n == 12 {
        'c'
    } else if n == 13 {
        'd'
    } else if n == 14 {
        'e'
    } else {
        'f'
    }
}

/// The colour `#rrggbb` for an accent value, whose lowest byte is red, the
/// next green and the third blue.
pub open spec fn accent_text(accent: u32) -> Seq<char> {
    let r = (accent % 256) as int;
    let g = ((accent / 256) % 256) as int;
    let b = ((accent / 65536) % 256) as int;
    seq![
        '#',
        hex_char(r / 16),
        hex_char(r % 16),
        hex_char(g / 16),
        hex_char(g % 16),
        hex_char(b / 16),
        hex_char(b % 16),
    ]
}

/// The first position at or after `from` that holds a line feed, or the
/// length when there is none.
pub open spec fn next_newline(s: Seq<char>, from: int) -> int
    decreases s.len() - from,
{
    if from < 0 || from >= s.len() || s[from] == '\n' {
        from
    } else {
        next_newline(s, from + 1)
    }
}

/// The adapter name in the output of the adapter query: of the lines after
/// the first, the first that is not blank, without the white space around
/// it.
pub open spec fn gpu_name_of(text: Seq<char>) -> Option<Seq<char>> {
    let header_end = next_newline(text, 0);
    let start = skip_whitespace(text, header_end + 1);
    if header_end >= text.len() || start >= text.len() {
        None
    } else {
        let line_end = next_newline(text, start);
        Some(
            text.subrange(
                start,
                skip_whitespace_back(text.take(line_end), line_end, start),
            ),
        )
    }
}

/// A size in bytes as tenths of a gibibyte, rounded to the nearest tenth.
pub open spec fn tenths_of_gib(bytes: u64) -> int {
    crate::rounding::round_div(bytes * 10, GIB as int)
}

/// The largest of the reported sizes, 0 when none is reported.
pub open spec fn largest_reported(sizes: Seq<Option<u64>>) -> u64
    decreases sizes.len(),
{
    if sizes.len() == 0 {
        0
    } else {
        let rest = largest_reported(sizes.drop_last());
        match sizes.last() {
            Some(v) if v > rest => v,
            _ => rest,
        }
    }
}

/// The `System` of sysinfo: what one query of the machine found. It is
/// carried from the query to the functions that read it, and nothing is
/// known of what it holds.
#[verifier::external_type_specification]
#[verifier::external_body]
pub struct ExSystem(sysinfo::System);

/// The `Cpu` of sysinfo: one processor that a query found, likewise opaque.
#[verifier::external_type_specification]
#[verifier::external_body]
pub struct ExCpu(sysinfo::Cpu);

/// Decodes an image with `load_from_memory` of the image crate and converts
/// it to 8-bit RGBA with `to_rgba8`. The decoder guesses the format and may
/// be extended by any code in the process, so nothing is claimed of the
/// result: not that the same bytes decode alike twice, nor when decoding
/// succeeds.
#[verifier::external_body]
fn decode_rgba(bytes: &[u8]) -> (icon: Option<IconImage>) {
    match image::load_from_memory(bytes) {
        Ok(img) => {
            let rgba = img.to_rgba8();
            let (width, height) = rgba.dimensions();
            Some(IconImage { rgba: rgba.into_raw(), width, height })
        },
        Err(_) => None,
    }
}

/// Queries the machine with `System::new_all` of sysinfo. Nothing is
/// claimed of what it finds.
#[verifier::external_body]
fn probe_system() -> (system: sysinfo::System) {
    sysinfo::System::new_all()
}

/// The first processor that `System::cpus` of sysinfo lists, if any.
#[verifier::external_body]
fn first_cpu(system: &sysinfo::System) -> (cpu: Option<&sysinfo::Cpu>) {
    system.cpus().first()
}

/// The brand text of a processor, from `Cpu::brand` of sysinfo.
#[verifier::external_body]
fn cpu_brand(cpu: &sysinfo::Cpu) -> (brand: String) {
    cpu.brand().to_string()
}

/// The size of the memory in bytes, from `System::total_memory` of sysinfo.
#[verifier::external_body]
fn total_memory(system: &sysinfo::System) -> (bytes: u64) {
    system.total_memory()
}

/// Whether the dark theme is in use: the system's light-theme setting is 0,
/// or it cannot be read.
pub fn is_dark_theme(apps_use_light_theme: Option<u32>) -> (dark: bool)
    ensures
        dark == match apps_use_light_theme {
            Some(v) => v == 0,
            None => true,
        },
{
    match apps_use_light_theme {
        Some(v) => v == 0,
        None => true,
    }
}

fn hex_digit(n: u32) -> (digit: &'static str)
    requires
        n < 16,
    ensures
        digit@ == seq![hex_char(n as int)],
{
    proof {
        reveal_strlit("0");
        reveal_strlit("1");
        reveal_strlit("2");
        reveal_strlit("3");
        reveal_strlit("4");
        reveal_strlit("5");
        reveal_strlit("6");
        reveal_strlit("7");
        reveal_strlit("8");
        reveal_strlit("9");
        reveal_strlit("a");
        reveal_strlit("b");
        reveal_strlit("c");
        reveal_strlit("d");
        reveal_strlit("e");
        reveal_strlit("f");
    }
    let digit = if n == 0 {
        "0"
    } else if n == 1 {
        "1"
    } else if n == 2 {
        "2"
    } else if n == 3 {
        "3"
    } else if n == 4 {
        "4"
    } else if n == 5 {
        "5"
    } else if n == 6 {
        "6"
    } else if n == 7 {
        "7"
    } else if n == 8 {
        "8"
    } else if n == 9 {
        "9"
    } else if n == 10 {
        "a"
    } else if n == 11 {
        "b"
    } else if n == 12 {
        "c"
    } else if n == 13 {
        "d"
    } else if n == 14 {
        "e"
    } else {
        "f"
    };
    assert(digit@ =~= seq![hex_char(n as int)]);
    digit
}

/// The accent colour as `#rrggbb`, when the system reports one.
pub fn get_accent_color_from_registry(accent: Option<u32>) -> (color: Option<String>)
    ensures
        match accent {
            Some(value) => color matches Some(text) && text@ == accent_text(value),
            None => color is None,
        },
{
    match accent {
        Some(value) => {
            let r = value % 256;
            let g = (value / 256) % 256;
            let b = (value / 65536) % 256;
            proof {
                reveal_strlit("#");
            }
            let mut text = String::from_str("#");
            text.append(hex_digit(r / 16));
            text.append(hex_digit(r % 16));
            text.append(hex_digit(g / 16));
            text.append(hex_digit(g % 16));
            text.append(hex_digit(b / 16));
            text.append(hex_digit(b % 16));
            assert(text@ =~= accent_text(value));
            Some(text)
        },
        None => None,
    }
}

/// The accent colour to use: the system's, or the default blue.
pub fn get_windows_accent_color(accent: Option<u32>) -> (color: String)
    ensures
        color@ == match accent {
            Some(value) => accent_text(value),
            None => DEFAULT_ACCENT@,
        },
{
    match get_accent_color_from_registry(accent) {
        Some(text) => text,
        None => String::from_str(DEFAULT_ACCENT),
    }
}

/// The name of the graphics adapter in the output of the adapter query, if
/// the query ran and named one.
pub fn get_gpu_name(query_output: Option<&str>) -> (name: Option<String>)
    ensures
        match query_output {
            Some(text) => match gpu_name_of(text@) {
                Some(expected) => name matches Some(n) && n@ == expected,
                None => name is None,
            },
            None => name is None,
        },
{
    let text = match query_output {
        Some(t) => t,
        None => {
            return None;
        },
    };
    let v = chars_of(text);
    let mut header_end: usize = 0;
    while header_end < v.len() && v[header_end] != '\n'
        invariant
            header_end <= v.len(),
            next_newline(v@, 0) == next_newline(v@, header_end as int),
        decreases v.len() - header_end,
    {
        header_end = header_end + 1;
    }
    if header_end >= v.len() {
        return None;
    }
    let mut start: usize = header_end + 1;
    while start < v.len() && whitespace(v[start])
        invariant
            header_end < start <= v.len(),
            skip_whitespace(v@, header_end + 1) == skip_whitespace(v@, start as int),
        decreases v.len() - start,
    {
        start = start + 1;
    }
    if start >= v.len() {
        return None;
    }
    let mut line_end: usize = start;
    while line_end < v.len() && v[line_end] != '\n'
        invariant
            start <= line_end <= v.len(),
            next_newline(v@, start as int) == next_newline(v@, line_end as int),
        decreases v.len() - line_end,
    {
        line_end = line_end + 1;
    }
    let (from, to) = trim_range(&v, start, line_end);
    proof {
        let line = v@.take(line_end as int);
        assert(line[start as int] == v@[start as int]);
        assert(skip_whitespace(line, start as int) == start);
    }
    Some(String::from_str(text.substring_char(from, to)))
}

/// The largest video memory among the adapters, in tenths of a gibibyte;
/// `None` when no adapter reports any.
pub fn get_gpu_vram_gb(adapter_sizes: &Vec<Option<u64>>) -> (tenths: Option<u64>)
    ensures
        tenths == if largest_reported(adapter_sizes@) > 0 {
            Some(tenths_of_gib(largest_reported(adapter_sizes@)) as u64)
        } else {
            None
        },
{
    let mut largest: u64 = 0;
    let mut i: usize = 0;
    while i < adapter_sizes.len()
        invariant
            i <= adapter_sizes.len(),
            largest == largest_reported(adapter_sizes@.take(i as int)),
        decreases adapter_sizes.len() - i,
    {
        proof {
            assert(adapter_sizes@.take(i + 1).drop_last() =~= adapter_sizes@.take(i as int));
        }
        match adapter_sizes[i] {
            Some(v) => {
                if v > largest {
                    largest = v;
                }
            },
            None => {},
        }
        i = i + 1;
    }
    assert(adapter_sizes@.take(adapter_sizes.len() as int) =~= adapter_sizes@);
    if largest > 0 {
        Some(gib_tenths(largest))
    } else {
        None
    }
}

/// A size in bytes as tenths of a gibibyte, rounded to the nearest tenth.
pub fn gib_tenths(bytes: u64) -> (tenths: u64)
    ensures
        tenths == tenths_of_gib(bytes),
{
    let n: u128 = bytes as u128 * 10;
    let q: u128 = (2 * n + GIB as u128) / (2 * GIB as u128);
    assert(q <= n) by (nonlinear_arith)
        requires
            q == (2 * n + 0x4000_0000) / 0x8000_0000int,
            n >= 0,
    ;
    assert(q <= 0xffff_ffff_ffff_ffff) by (nonlinear_arith)
        requires
            q == (2 * n + 0x4000_0000) / 0x8000_0000int,
            n <= 0xffff_ffff_ffff_ffff * 10,
    ;
    q as u64
}

/// The specifications of a machine from what was read of it: the processor
/// brand without the white space around it, each missing name replaced by
/// `Unknown`, sizes in tenths of a gibibyte.
pub fn describe_system(
    cpu_brand: Option<&str>,
    total_memory_bytes: u64,
    gpu_name: Option<String>,
    gpu_vram_tenths_gb: Option<u64>,
) -> (specs: SystemSpecs)
    ensures
        specs.cpu_model@ == match cpu_brand {
            Some(brand) => trimmed(brand@),
            None => "Unknown"@,
        },
        specs.gpu_model@ == match gpu_name {
            Some(name) => name@,
            None => "Unknown"@,
        },
        specs.gpu_vram_tenths_gb == gpu_vram_tenths_gb,
        specs.total_ram_tenths_gb == tenths_of_gib(total_memory_bytes),
{
    SystemSpecs {
        cpu_model: match cpu_brand {
            Some(brand) => String::from_str(trim(brand)),
            None => String::from_str("Unknown"),
        },
        gpu_model: match gpu_name {
            Some(name) => name,
            None => String::from_str("Unknown"),
        },
        gpu_vram_tenths_gb,
        total_ram_tenths_gb: gib_tenths(total_memory_bytes),
    }
}

/// Reads the processor and the memory of this machine and joins them with
/// what the caller found of the graphics adapter. The processor's name is
/// some brand text without the white space around it, or `Unknown`; the
/// memory is some number of bytes in tenths of a gibibyte.
pub fn collect_system_specs(gpu_name: Option<String>, gpu_vram_tenths_gb: Option<u64>) -> (specs:
    SystemSpecs)
    ensures
        specs.gpu_model@ == match gpu_name {
            Some(name) => name@,
            None => "Unknown"@,
        },
        specs.gpu_vram_tenths_gb == gpu_vram_tenths_gb,
        specs.cpu_model@ == "Unknown"@ || exists|brand: Seq<char>|
            specs.cpu_model@ == #[trigger] trimmed(brand),
        exists|bytes: u64| specs.total_ram_tenths_gb == #[trigger] tenths_of_gib(bytes),
{
    let system = probe_system();
    let memory = total_memory(&system);
    let specs = match first_cpu(&system) {
        Some(cpu) => {
            let brand = cpu_brand(cpu);
            let specs = describe_system(
                Some(brand.as_str()),
                memory,
                gpu_name,
                gpu_vram_tenths_gb,
            );
            assert(specs.cpu_model@ == trimmed(brand@));
            specs
        },
        None => describe_system(None, memory, gpu_name, gpu_vram_tenths_gb),
    };
    assert(specs.total_ram_tenths_gb == tenths_of_gib(memory));
    specs
}

/// The encoded icon for the theme in use: the white icon on a dark theme,
/// the black one on a light theme.
pub fn theme_icon_bytes<'a>(dark: bool, white_icon: &'a [u8], black_icon: &'a [u8]) -> (chosen:
    &'a [u8])
    ensures
        chosen@ == if dark {
            white_icon@
        } else {
            black_icon@
        },
{
    if dark {
        white_icon
    } else {
        black_icon
    }
}

/// The tray icon for the theme in use, decoded to RGBA: what the decoder
/// makes of the bytes that `theme_icon_bytes` chooses, or `None` when it
/// cannot read them. What the decoder returns is not specified here.
pub fn load_theme_icon(dark: bool, white_icon: &[u8], black_icon: &[u8]) -> (icon: Option<
    IconImage,
>) {
    decode_rgba(theme_icon_bytes(dark, white_icon, black_icon))
}

} // verus!
