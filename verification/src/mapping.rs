//! Extension → conversion mapping for CAD files.

use vstd::prelude::*;
use crate::text::{
    ascii_lower, chars_of, has_ascii_upper, is_ascii_text, lemma_ascii_lower_has_no_upper, to_lowercase,
    unicode_lowercase,
};

verus! {

/// Supported CAD file formats.
#[derive(Debug, Clone, Copy, PartialEq, Eq, Hash, Structural)]
pub enum CadFormat {
    /// AutoCAD DWG
    Dwg,
    /// AutoCAD DXF (Drawing Exchange Format)
    Dxf,
    /// STEP (Standard for the Exchange of Product Data)
    Step,
    /// IGES (Initial Graphics Exchange Specification)
    Iges,
    /// STL (Stereolithography)
    Stl,
    /// OBJ (Wavefront)
    Obj,
    /// FBX (Filmbox)
    Fbx,
    /// 3DS (3D Studio)
    ThreeDs,
    /// Solidworks part
    Sldprt,
    /// Solidworks assembly
    Sldasm,
    /// CATIA
    CatPart,
    /// ProE/Creo
    Prt,
}

/// The CAD format named by an already lowercased extension.
pub open spec fn cad_format_of(ext: Seq<char>) -> Option<CadFormat> {
    if ext == seq!['d', 'w', 'g'] {
        Some(CadFormat::Dwg)
    } else if ext == seq!['d', 'x', 'f'] {
        Some(CadFormat::Dxf)
    } else if ext == seq!['s', 't', 'e', 'p'] || ext == seq!['s', 't', 'p'] {
        Some(CadFormat::Step)
    } else if ext == seq!['i', 'g', 'e', 's'] || ext == seq!['i', 'g', 's'] {
        Some(CadFormat::Iges)
    } else if ext == seq!['s', 't', 'l'] {
        Some(CadFormat::Stl)
    } else if ext == seq!['o', 'b', 'j'] {
        Some(CadFormat::Obj)
    } else if ext == seq!['f', 'b', 'x'] {
        Some(CadFormat::Fbx)
    } else if ext == seq!['3', 'd', 's'] {
        Some(CadFormat::ThreeDs)
    } else if ext == seq!['s', 'l', 'd', 'p', 'r', 't'] {
        Some(CadFormat::Sldprt)
    } else if ext == seq!['s', 'l', 'd', 'a', 's', 'm'] {
        Some(CadFormat::Sldasm)
    } else if ext == seq!['c', 'a', 't', 'p', 'a', 'r', 't'] {
        Some(CadFormat::CatPart)
    } else if ext == seq!['p', 'r', 't'] {
        Some(CadFormat::Prt)
    } else {
        None
    }
}

/// Whether `v` holds exactly the characters of `lit`.
pub fn is_word(v: &[char], lit: &str) -> (r: bool)
    ensures
        r == (v@ == lit@),
{
    let l = chars_of(lit);
    crate::text::chars_eq(v, l.as_slice())
}

impl CadFormat {
    /// The format named by an extension already in lowercase.
    pub fn from_lowercase_extension(ext: &str) -> (r: Option<CadFormat>)
        ensures
            r == cad_format_of(ext@),
    {
        let v = chars_of(ext);
        proof {
            reveal_strlit("dwg");
            reveal_strlit("dxf");
            reveal_strlit("step");
            reveal_strlit("stp");
            reveal_strlit("iges");
            reveal_strlit("igs");
            reveal_strlit("stl");
            reveal_strlit("obj");
            reveal_strlit("fbx");
            reveal_strlit("3ds");
            reveal_strlit("sldprt");
            reveal_strlit("sldasm");
            reveal_strlit("catpart");
            reveal_strlit("prt");
            assert("dwg"@ =~= seq!['d', 'w', 'g']);
            assert("dxf"@ =~= seq!['d', 'x', 'f']);
            assert("step"@ =~= seq!['s', 't', 'e', 'p']);
            assert("stp"@ =~= seq!['s', 't', 'p']);
            assert("iges"@ =~= seq!['i', 'g', 'e', 's']);
            assert("igs"@ =~= seq!['i', 'g', 's']);
            assert("stl"@ =~= seq!['s', 't', 'l']);
            assert("obj"@ =~= seq!['o', 'b', 'j']);
            assert("fbx"@ =~= seq!['f', 'b', 'x']);
            assert("3ds"@ =~= seq!['3', 'd', 's']);
            assert("sldprt"@ =~= seq!['s', 'l', 'd', 'p', 'r', 't']);
            assert("sldasm"@ =~= seq!['s', 'l', 'd', 'a', 's', 'm']);
            assert("catpart"@ =~= seq!['c', 'a', 't', 'p', 'a', 'r', 't']);
            assert("prt"@ =~= seq!['p', 'r', 't']);
        }
        let s = v.as_slice();
        if is_word(s, "dwg") {
            Some(CadFormat::Dwg)
        } else if is_word(s, "dxf") {
            Some(CadFormat::Dxf)
        } else if is_word(s, "step") || is_word(s, "stp") {
            Some(CadFormat::Step)
        } else if is_word(s, "iges") || is_word(s, "igs") {
            Some(CadFormat::Iges)
        } else if is_word(s, "stl") {
            Some(CadFormat::Stl)
        } else if is_word(s, "obj") {
            Some(CadFormat::Obj)
        } else if is_word(s, "fbx") {
            Some(CadFormat::Fbx)
        } else if is_word(s, "3ds") {
            Some(CadFormat::ThreeDs)
        } else if is_word(s, "sldprt") {
            Some(CadFormat::Sldprt)
        } else if is_word(s, "sldasm") {
            Some(CadFormat::Sldasm)
        } else if is_word(s, "catpart") {
            Some(CadFormat::CatPart)
        } else if is_word(s, "prt") {
            Some(CadFormat::Prt)
        } else {
            None
        }
    }

    /// Determine CAD format from a file extension, in any case.
    pub fn from_extension(ext: &str) -> (r: Option<CadFormat>)
        ensures
            r == cad_format_of(unicode_lowercase(ext@)),
            is_ascii_text(ext@) ==> r == cad_format_of(ascii_lower(ext@)),
    {
        let lower = to_lowercase(ext);
        Self::from_lowercase_extension(lower.as_str())
    }
}

} // verus!

verus! {

/// The extensions of the CAD formats: each of these lowercase extensions
/// names exactly this format (STEP and IGES each have two).
pub proof fn lemma_cad_format_table()
    ensures
        cad_format_of("dwg"@) == Some(CadFormat::Dwg),
        cad_format_of("dxf"@) == Some(CadFormat::Dxf),
        cad_format_of("step"@) == Some(CadFormat::Step),
        cad_format_of("stp"@) == Some(CadFormat::Step),
        cad_format_of("iges"@) == Some(CadFormat::Iges),
        cad_format_of("igs"@) == Some(CadFormat::Iges),
        cad_format_of("stl"@) == Some(CadFormat::Stl),
        cad_format_of("obj"@) == Some(CadFormat::Obj),
        cad_format_of("fbx"@) == Some(CadFormat::Fbx),
        cad_format_of("3ds"@) == Some(CadFormat::ThreeDs),
        cad_format_of("sldprt"@) == Some(CadFormat::Sldprt),
        cad_format_of("sldasm"@) == Some(CadFormat::Sldasm),
        cad_format_of("catpart"@) == Some(CadFormat::CatPart),
        cad_format_of("prt"@) == Some(CadFormat::Prt),
{
    reveal_strlit("dwg");
    assert("dwg"@ =~= seq!['d', 'w', 'g']);
    reveal_strlit("dxf");
    assert("dxf"@ =~= seq!['d', 'x', 'f']);
    reveal_strlit("step");
    assert("step"@ =~= seq!['s', 't', 'e', 'p']);
    reveal_strlit("stp");
    assert("stp"@ =~= seq!['s', 't', 'p']);
    reveal_strlit("iges");
    assert("iges"@ =~= seq!['i', 'g', 'e', 's']);
    reveal_strlit("igs");
    assert("igs"@ =~= seq!['i', 'g', 's']);
    reveal_strlit("stl");
    assert("stl"@ =~= seq!['s', 't', 'l']);
    reveal_strlit("obj");
    assert("obj"@ =~= seq!['o', 'b', 'j']);
    reveal_strlit("fbx");
    assert("fbx"@ =~= seq!['f', 'b', 'x']);
    reveal_strlit("3ds");
    assert("3ds"@ =~= seq!['3', 'd', 's']);
    reveal_strlit("sldprt");
    assert("sldprt"@ =~= seq!['s', 'l', 'd', 'p', 'r', 't']);
    reveal_strlit("sldasm");
    assert("sldasm"@ =~= seq!['s', 'l', 'd', 'a', 's', 'm']);
    reveal_strlit("catpart");
    assert("catpart"@ =~= seq!['c', 'a', 't', 'p', 'a', 'r', 't']);
    reveal_strlit("prt");
    assert("prt"@ =~= seq!['p', 'r', 't']);
    assert(cad_format_of(seq!['d', 'w', 'g']) == Some(CadFormat::Dwg)) by {
    }
    assert(cad_format_of(seq!['d', 'x', 'f']) == Some(CadFormat::Dxf)) by {
        assert(seq!['d', 'x', 'f'][1] != seq!['d', 'w', 'g'][1]);
    }
    assert(cad_format_of(seq!['s', 't', 'e', 'p']) == Some(CadFormat::Step)) by {
    }
    assert(cad_format_of(seq!['s', 't', 'p']) == Some(CadFormat::Step)) by {
        assert(seq!['s', 't', 'p'][0] != seq!['d', 'w', 'g'][0]);
        assert(seq!['s', 't', 'p'][0] != seq!['d', 'x', 'f'][0]);
    }
    assert(cad_format_of(seq!['i', 'g', 'e', 's']) == Some(CadFormat::Iges)) by {
        assert(seq!['i', 'g', 'e', 's'][0] != seq!['s', 't', 'e', 'p'][0]);
    }
    assert(cad_format_of(seq!['i', 'g', 's']) == Some(CadFormat::Iges)) by {
        assert(seq!['i', 'g', 's'][0] != seq!['d', 'w', 'g'][0]);
        assert(seq!['i', 'g', 's'][0] != seq!['d', 'x', 'f'][0]);
        assert(seq!['i', 'g', 's'][0] != seq!['s', 't', 'p'][0]);
    }
    assert(cad_format_of(seq!['s', 't', 'l']) == Some(CadFormat::Stl)) by {
        assert(seq!['s', 't', 'l'][0] != seq!['d', 'w', 'g'][0]);
        assert(seq!['s', 't', 'l'][0] != seq!['d', 'x', 'f'][0]);
        assert(seq!['s', 't', 'l'][2] != seq!['s', 't', 'p'][2]);
        assert(seq!['s', 't', 'l'][0] != seq!['i', 'g', 's'][0]);
    }
    assert(cad_format_of(seq!['o', 'b', 'j']) == Some(CadFormat::Obj)) by {
        assert(seq!['o', 'b', 'j'][0] != seq!['d', 'w', 'g'][0]);
        assert(seq!['o', 'b', 'j'][0] != seq!['d', 'x', 'f'][0]);
        assert(seq!['o', 'b', 'j'][0] != seq!['s', 't', 'p'][0]);
        assert(seq!['o', 'b', 'j'][0] != seq!['i', 'g', 's'][0]);
        assert(seq!['o', 'b', 'j'][0] != seq!['s', 't', 'l'][0]);
    }
    assert(cad_format_of(seq!['f', 'b', 'x']) == Some(CadFormat::Fbx)) by {
        assert(seq!['f', 'b', 'x'][0] != seq!['d', 'w', 'g'][0]);
        assert(seq!['f', 'b', 'x'][0] != seq!['d', 'x', 'f'][0]);
        assert(seq!['f', 'b', 'x'][0] != seq!['s', 't', 'p'][0]);
        assert(seq!['f', 'b', 'x'][0] != seq!['i', 'g', 's'][0]);
        assert(seq!['f', 'b', 'x'][0] != seq!['s', 't', 'l'][0]);
        assert(seq!['f', 'b', 'x'][0] != seq!['o', 'b', 'j'][0]);
    }
    assert(cad_format_of(seq!['3', 'd', 's']) == Some(CadFormat::ThreeDs)) by {
        assert(seq!['3', 'd', 's'][0] != seq!['d', 'w', 'g'][0]);
        assert(seq!['3', 'd', 's'][0] != seq!['d', 'x', 'f'][0]);
        assert(seq!['3', 'd', 's'][0] != seq!['s', 't', 'p'][0]);
        assert(seq!['3', 'd', 's'][0] != seq!['i', 'g', 's'][0]);
        assert(seq!['3', 'd', 's'][0] != seq!['s', 't', 'l'][0]);
        assert(seq!['3', 'd', 's'][0] != seq!['o', 'b', 'j'][0]);
        assert(seq!['3', 'd', 's'][0] != seq!['f', 'b', 'x'][0]);
    }
    assert(cad_format_of(seq!['s', 'l', 'd', 'p', 'r', 't']) == Some(CadFormat::Sldprt)) by {
    }
    assert(cad_format_of(seq!['s', 'l', 'd', 'a', 's', 'm']) == Some(CadFormat::Sldasm)) by {
        assert(seq!['s', 'l', 'd', 'a', 's', 'm'][3] != seq!['s', 'l', 'd', 'p', 'r', 't'][3]);
    }
    assert(cad_format_of(seq!['c', 'a', 't', 'p', 'a', 'r', 't']) == Some(CadFormat::CatPart)) by {
    }
    assert(cad_format_of(seq!['p', 'r', 't']) == Some(CadFormat::Prt)) by {
        assert(seq!['p', 'r', 't'][0] != seq!['d', 'w', 'g'][0]);
        assert(seq!['p', 'r', 't'][0] != seq!['d', 'x', 'f'][0]);
        assert(seq!['p', 'r', 't'][0] != seq!['s', 't', 'p'][0]);
        assert(seq!['p', 'r', 't'][0] != seq!['i', 'g', 's'][0]);
        assert(seq!['p', 'r', 't'][0] != seq!['s', 't', 'l'][0]);
        assert(seq!['p', 'r', 't'][0] != seq!['o', 'b', 'j'][0]);
        assert(seq!['p', 'r', 't'][0] != seq!['f', 'b', 'x'][0]);
        assert(seq!['p', 'r', 't'][0] != seq!['3', 'd', 's'][0]);
    }
}


/// The output extension and MIME type of each target: PDF documents, SVG
/// drawings, PNG and JPEG images, thumbnails as `.thumb.png` PNG images, and
/// glTF models.
pub proof fn lemma_target_table()
    ensures
        target_extension(ConversionTarget::Pdf) == "pdf"@ && target_mime_type(ConversionTarget::Pdf) == "application/pdf"@,
        target_extension(ConversionTarget::Svg) == "svg"@ && target_mime_type(ConversionTarget::Svg) == "image/svg+xml"@,
        target_extension(ConversionTarget::Png) == "png"@ && target_mime_type(ConversionTarget::Png) == "image/png"@,
        target_extension(ConversionTarget::Jpg) == "jpg"@ && target_mime_type(ConversionTarget::Jpg) == "image/jpeg"@,
        target_extension(ConversionTarget::Thumbnail) == "thumb.png"@
            && target_mime_type(ConversionTarget::Thumbnail) == "image/png"@,
        target_extension(ConversionTarget::Gltf) == "gltf"@ && target_mime_type(ConversionTarget::Gltf) == "model/gltf+json"@,
{
}

/// Display name of each CAD format.
pub open spec fn cad_display_name(f: CadFormat) -> Seq<char> {
    match f {
        CadFormat::Dwg => "AutoCAD DWG"@,
        CadFormat::Dxf => "AutoCAD DXF"@,
        CadFormat::Step => "STEP"@,
        CadFormat::Iges => "IGES"@,
        CadFormat::Stl => "STL"@,
        CadFormat::Obj => "Wavefront OBJ"@,
        CadFormat::Fbx => "FBX"@,
        CadFormat::ThreeDs => "3D Studio"@,
        CadFormat::Sldprt => "SolidWorks Part"@,
        CadFormat::Sldasm => "SolidWorks Assembly"@,
        CadFormat::CatPart => "CATIA Part"@,
        CadFormat::Prt => "ProE/Creo Part"@,
    }
}

impl CadFormat {
    /// Get the display name for this format.
    pub fn display_name(&self) -> (r: &'static str)
        ensures
            r@ == cad_display_name(*self),
    {
        match self {
            CadFormat::Dwg => "AutoCAD DWG",
            CadFormat::Dxf => "AutoCAD DXF",
            CadFormat::Step => "STEP",
            CadFormat::Iges => "IGES",
            CadFormat::Stl => "STL",
            CadFormat::Obj => "Wavefront OBJ",
            CadFormat::Fbx => "FBX",
            CadFormat::ThreeDs => "3D Studio",
            CadFormat::Sldprt => "SolidWorks Part",
            CadFormat::Sldasm => "SolidWorks Assembly",
            CadFormat::CatPart => "CATIA Part",
            CadFormat::Prt => "ProE/Creo Part",
        }
    }
}

/// Target format for conversion output.
#[derive(Debug, Clone, Copy, PartialEq, Eq, Hash, Structural)]
pub enum ConversionTarget {
    /// PDF document
    Pdf,
    /// SVG vector image
    Svg,
    /// PNG raster image
    Png,
    /// JPEG raster image
    Jpg,
    /// Thumbnail (small PNG)
    Thumbnail,
    /// 3D viewer format (glTF)
    Gltf,
}

/// File extension written for each target.
pub open spec fn target_extension(t: ConversionTarget) -> Seq<char> {
    match t {
        ConversionTarget::Pdf => "pdf"@,
        ConversionTarget::Svg => "svg"@,
        ConversionTarget::Png => "png"@,
        ConversionTarget::Jpg => "jpg"@,
        ConversionTarget::Thumbnail => "thumb.png"@,
        ConversionTarget::Gltf => "gltf"@,
    }
}

/// MIME type of each target.
pub open spec fn target_mime_type(t: ConversionTarget) -> Seq<char> {
    match t {
        ConversionTarget::Pdf => "application/pdf"@,
        ConversionTarget::Svg => "image/svg+xml"@,
        ConversionTarget::Png => "image/png"@,
        ConversionTarget::Jpg => "image/jpeg"@,
        ConversionTarget::Thumbnail => "image/png"@,
        ConversionTarget::Gltf => "model/gltf+json"@,
    }
}

impl ConversionTarget {
    /// Get the file extension for this target.
    pub fn extension(&self) -> (r: &'static str)
        ensures
            r@ == target_extension(*self),
    {
        match self {
            ConversionTarget::Pdf => "pdf",
            ConversionTarget::Svg => "svg",
            ConversionTarget::Png => "png",
            ConversionTarget::Jpg => "jpg",
            ConversionTarget::Thumbnail => "thumb.png",
            ConversionTarget::Gltf => "gltf",
        }
    }

    /// Get the MIME type for this target.
    pub fn mime_type(&self) -> (r: &'static str)
        ensures
            r@ == target_mime_type(*self),
    {
        match self {
            ConversionTarget::Pdf => "application/pdf",
            ConversionTarget::Svg => "image/svg+xml",
            ConversionTarget::Png => "image/png",
            ConversionTarget::Jpg => "image/jpeg",
            ConversionTarget::Thumbnail => "image/png",
            ConversionTarget::Gltf => "model/gltf+json",
        }
    }
}

/// Spec view of a mapping entry.
pub struct MappingEntryView {
    pub source: CadFormat,
    pub targets: Seq<ConversionTarget>,
    pub command: Seq<char>,
    pub args_template: Seq<Seq<char>>,
    pub timeout_seconds: u64,
    pub enabled: bool,
}

/// A mapping entry defining how to convert a CAD format.
#[derive(Debug)]
pub struct ConversionMappingEntry {
    /// The source CAD format
    pub source: CadFormat,
    /// The target output formats
    pub targets: Vec<ConversionTarget>,
    /// The command to execute for conversion
    pub command: String,
    /// Command arguments template. Placeholders: {input}, {output}, {format}
    pub args_template: Vec<String>,
    /// Timeout in seconds for the conversion
    pub timeout_seconds: u64,
    /// Whether this mapping is enabled
    pub enabled: bool,
}

impl View for ConversionMappingEntry {
    type V = MappingEntryView;

    open spec fn view(&self) -> MappingEntryView {
        MappingEntryView {
            source: self.source,
            targets: self.targets@,
            command: self.command@,
            args_template: self.args_template.deep_view(),
            timeout_seconds: self.timeout_seconds,
            enabled: self.enabled,
        }
    }
}

/// A copy of a list of strings.
pub fn copy_strings(v: &Vec<String>) -> (r: Vec<String>)
    ensures
        r.deep_view() == v.deep_view(),
{
    let mut r: Vec<String> = Vec::new();
    let mut i: usize = 0;
    while i < v.len()
        invariant
            i <= v@.len(),
            r.deep_view() =~= v.deep_view().take(i as int),
        decreases v@.len() - i,
    {
        let s = v[i].clone();
        let ghost old_r = r.deep_view();
        r.push(s);
        assert(r.deep_view() =~= old_r.push(s@));
        assert(v.deep_view().take(i + 1) =~= v.deep_view().take(i as int).push(v@[i as int]@));
        i = i + 1;
    }
    assert(r.deep_view() =~= v.deep_view());
    r
}

impl ConversionMappingEntry {
    /// An independent copy of this entry.
    pub fn duplicate(&self) -> (r: ConversionMappingEntry)
        ensures
            r@ == self@,
    {
        let mut targets: Vec<ConversionTarget> = Vec::new();
        let mut i: usize = 0;
        while i < self.targets.len()
            invariant
                i <= self.targets@.len(),
                targets@ =~= self.targets@.take(i as int),
            decreases self.targets@.len() - i,
        {
            targets.push(self.targets[i]);
            i = i + 1;
        }
        assert(targets@ =~= self.targets@);
        ConversionMappingEntry {
            source: self.source,
            targets,
            command: self.command.clone(),
            args_template: copy_strings(&self.args_template),
            timeout_seconds: self.timeout_seconds,
            enabled: self.enabled,
        }
    }
}

} // verus!

verus! {

/// One registered extension and its entry.
#[derive(Debug)]
pub struct MappingSlot {
    /// The extension the entry is registered under
    pub extension: String,
    /// The entry
    pub entry: ConversionMappingEntry,
}

/// Registry of all conversion mappings; each extension occurs once.
#[derive(Debug)]
pub struct ConversionMapping {
    /// All registered mappings, in registration order
    slots: Vec<MappingSlot>,
}

/// Disabling a mapping and enabling it again gives back the registry it
/// started from.
pub proof fn lemma_disable_enable_round_trip(m: Map<Seq<char>, MappingEntryView>, key: Seq<char>)
    requires
        m.contains_key(key),
        m[key].enabled,
    ensures
        ({
            let off = m.insert(key, MappingEntryView { enabled: false, ..m[key] });
            off.insert(key, MappingEntryView { enabled: true, ..off[key] }) == m
        }),
{
    let off = m.insert(key, MappingEntryView { enabled: false, ..m[key] });
    let on = off.insert(key, MappingEntryView { enabled: true, ..off[key] });
    assert(on[key] == m[key]);
    assert(on =~= m);
}

/// A registered entry is what a later lookup under the same key finds, and
/// registering leaves every other key as it was.
pub proof fn lemma_lookup_after_register(m: Map<Seq<char>, MappingEntryView>, key: Seq<char>, e: MappingEntryView, other: Seq<char>)
    ensures
        m.insert(key, e).contains_key(key) && m.insert(key, e)[key] == e,
        other != key ==> (m.insert(key, e).contains_key(other) == m.contains_key(other)),
        other != key && m.contains_key(other) ==> m.insert(key, e)[other] == m[other],
{
}

/// Index of the one occurrence of `s[i]` in a sequence without duplicates.
pub proof fn lemma_index_of_unique<A>(s: Seq<A>, i: int)
    requires
        s.no_duplicates(),
        0 <= i < s.len(),
    ensures
        s.index_of(s[i]) == i,
        s.contains(s[i]),
{
    assert(s[i] == s[i]);
    assert(s.contains(s[i]));
    let j = s.index_of(s[i]);
    assert(0 <= j < s.len() && s[j] == s[i]);
}

impl ConversionMapping {
    /// The registered extensions, in registration order.
    pub closed spec fn keys(&self) -> Seq<Seq<char>> {
        self.slots@.map_values(|s: MappingSlot| s.extension@)
    }

    #[verifier::type_invariant]
    closed spec fn keys_unique(&self) -> bool {
        self.keys().no_duplicates()
    }

    /// The registry as a map from extension to entry.
    pub closed spec fn as_map(&self) -> Map<Seq<char>, MappingEntryView> {
        Map::new(
            |k: Seq<char>| self.keys().contains(k),
            |k: Seq<char>| self.slots@[self.keys().index_of(k)].entry@,
        )
    }

    /// Position of a key among the slots.
    fn position(&self, key: &str) -> (r: Option<usize>)
        ensures
            match r {
                Some(i) => i < self.slots@.len() && self.keys()[i as int] == key@
                    && self.keys().index_of(key@) == i && self.as_map().contains_key(key@)
                    && self.as_map()[key@] == self.slots@[i as int].entry@,
                None => !self.keys().contains(key@) && !self.as_map().contains_key(key@),
            },
    {
        proof {
            use_type_invariant(self);
        }
        let mut i: usize = 0;
        while i < self.slots.len()
            invariant
                i <= self.slots@.len(),
                self.keys().no_duplicates(),
                forall|j: int| 0 <= j < i ==> self.keys()[j] != key@,
            decreases self.slots@.len() - i,
        {
            if crate::text::str_eq(self.slots[i].extension.as_str(), key) {
                proof {
                    lemma_index_of_unique(self.keys(), i as int);
                }
                return Some(i);
            }
            i = i + 1;
        }
        proof {
            if self.keys().contains(key@) {
                let j = choose|j: int| 0 <= j < self.keys().len() && self.keys()[j] == key@;
                assert(self.keys()[j] == key@);
            }
        }
        None
    }

    /// Create a new empty mapping registry.
    pub fn new() -> (r: ConversionMapping)
        ensures
            r.as_map() == Map::<Seq<char>, MappingEntryView>::empty(),
    {
        let r = ConversionMapping { slots: Vec::new() };
        assert(r.as_map() =~= Map::<Seq<char>, MappingEntryView>::empty());
        r
    }

    /// The entry registered under `key` exactly, if it is enabled.
    pub fn find_enabled(&self, key: &str) -> (r: Option<&ConversionMappingEntry>)
        ensures
            match r {
                Some(e) => self.as_map().contains_key(key@) && self.as_map()[key@].enabled
                    && e@ == self.as_map()[key@],
                None => !(self.as_map().contains_key(key@) && self.as_map()[key@].enabled),
            },
    {
        match self.position(key) {
            Some(i) => {
                if self.slots[i].entry.enabled {
                    Some(&self.slots[i].entry)
                } else {
                    None
                }
            },
            None => None,
        }
    }

    /// Look up the enabled mapping for a file extension, in any case. An ASCII
    /// extension is looked up under its ASCII lowercase, so a key holding a
    /// letter in `A..=Z` is never found by it.
    pub fn get_mapping(&self, extension: &str) -> (r: Option<&ConversionMappingEntry>)
        ensures
            match r {
                Some(e) => self.as_map().contains_key(unicode_lowercase(extension@))
                    && self.as_map()[unicode_lowercase(extension@)].enabled
                    && e@ == self.as_map()[unicode_lowercase(extension@)],
                None => !(self.as_map().contains_key(unicode_lowercase(extension@))
                    && self.as_map()[unicode_lowercase(extension@)].enabled),
            },
            is_ascii_text(extension@) ==> match r {
                Some(e) => self.as_map().contains_key(ascii_lower(extension@))
                    && self.as_map()[ascii_lower(extension@)].enabled
                    && e@ == self.as_map()[ascii_lower(extension@)],
                None => !(self.as_map().contains_key(ascii_lower(extension@))
                    && self.as_map()[ascii_lower(extension@)].enabled),
            },
            is_ascii_text(extension@) && r is Some ==> !has_ascii_upper(ascii_lower(extension@)),
    {
        proof {
            lemma_ascii_lower_has_no_upper(extension@);
        }
        let ext = to_lowercase(extension);
        self.find_enabled(ext.as_str())
    }

    /// Whether an entry is registered under `key` exactly.
    pub fn contains_extension(&self, key: &str) -> (r: bool)
        ensures
            r == self.as_map().contains_key(key@),
    {
        self.position(key).is_some()
    }

    /// Check if a file extension, in any case, is a known CAD format.
    pub fn is_cad_file(&self, extension: &str) -> (r: bool)
        ensures
            r == self.as_map().contains_key(unicode_lowercase(extension@)),
            is_ascii_text(extension@) ==> r == self.as_map().contains_key(ascii_lower(extension@)),
    {
        let ext = to_lowercase(extension);
        self.contains_extension(ext.as_str())
    }

    /// All extensions whose mapping is enabled, each once.
    pub fn supported_extensions(&self) -> (r: Vec<String>)
        ensures
            r.deep_view().no_duplicates(),
            forall|k: Seq<char>| #[trigger] r.deep_view().contains(k) <==> (
                self.as_map().contains_key(k) && self.as_map()[k].enabled),
    {
        proof {
            use_type_invariant(self);
        }
        let mut r: Vec<String> = Vec::new();
        let mut i: usize = 0;
        while i < self.slots.len()
            invariant
                i <= self.slots@.len(),
                self.keys().no_duplicates(),
                r.deep_view().no_duplicates(),
                forall|k: Seq<char>| #[trigger] r.deep_view().contains(k) <==> exists|j: int|
                    0 <= j < i && self.keys()[j] == k && self.slots@[j].entry.enabled,
            decreases self.slots@.len() - i,
        {
            if self.slots[i].entry.enabled {
                let ghost old_r = r.deep_view();
                let s = self.slots[i].extension.clone();
                r.push(s);
                assert(r.deep_view() =~= old_r.push(self.keys()[i as int]));
                proof {
                    assert forall|k: Seq<char>| #[trigger] r.deep_view().contains(k) <==> exists|j: int|
                        0 <= j < i + 1 && self.keys()[j] == k && self.slots@[j].entry.enabled by {
                        if r.deep_view().contains(k) {
                            let m = choose|m: int| 0 <= m < r.deep_view().len() && r.deep_view()[m] == k;
                            if m < old_r.len() {
                                assert(old_r.contains(k));
                            } else {
                                assert(self.keys()[i as int] == k);
                            }
                        }
                        if exists|j: int| 0 <= j < i + 1 && self.keys()[j] == k && self.slots@[j].entry.enabled {
                            let j = choose|j: int| 0 <= j < i + 1 && self.keys()[j] == k && self.slots@[j].entry.enabled;
                            if j < i {
                                assert(old_r.contains(k));
                                let m = choose|m: int| 0 <= m < old_r.len() && old_r[m] == k;
                                assert(r.deep_view()[m] == k);
                            } else {
                                assert(r.deep_view()[old_r.len() as int] == k);
                            }
                        }
                    }
                    assert forall|a: int, b: int| 0 <= a < r.deep_view().len() && 0 <= b < r.deep_view().len()
                        && a != b implies r.deep_view()[a] != r.deep_view()[b] by {
                        if a == old_r.len() || b == old_r.len() {
                            let o = if a == old_r.len() { b } else { a };
                            if r.deep_view()[a] == r.deep_view()[b] {
                                assert(old_r.contains(old_r[o]));
                                let j = choose|j: int| 0 <= j < i && self.keys()[j] == old_r[o]
                                    && self.slots@[j].entry.enabled;
                                assert(self.keys()[j] == self.keys()[i as int]);
                            }
                        }
                    }
                }
            } else {
                proof {
                    assert forall|k: Seq<char>| #[trigger] r.deep_view().contains(k) <==> exists|j: int|
                        0 <= j < i + 1 && self.keys()[j] == k && self.slots@[j].entry.enabled by {
                        if exists|j: int| 0 <= j < i + 1 && self.keys()[j] == k && self.slots@[j].entry.enabled {
                            let j = choose|j: int| 0 <= j < i + 1 && self.keys()[j] == k && self.slots@[j].entry.enabled;
                            assert(j < i);
                        }
                    }
                }
            }
            i = i + 1;
        }
        proof {
            assert forall|k: Seq<char>| #[trigger] r.deep_view().contains(k) <==> (
                self.as_map().contains_key(k) && self.as_map()[k].enabled) by {
                if r.deep_view().contains(k) {
                    let j = choose|j: int| 0 <= j < self.slots@.len() && self.keys()[j] == k
                        && self.slots@[j].entry.enabled;
                    lemma_index_of_unique(self.keys(), j);
                }
                if self.as_map().contains_key(k) && self.as_map()[k].enabled {
                    let j = self.keys().index_of(k);
                    assert(self.keys()[j] == k);
                }
            }
        }
        r
    }
}

} // verus!

verus! {

impl ConversionMapping {
    /// Register a mapping under `extension`, replacing any earlier one.
    pub fn register(&mut self, extension: String, entry: ConversionMappingEntry)
        ensures
            final(self).as_map() == old(self).as_map().insert(extension@, entry@),
    {
        proof {
            use_type_invariant(&*self);
        }
        let ghost old_map = self.as_map();
        let ghost old_keys = self.keys();
        let pos = self.position(extension.as_str());
        let mut slots: Vec<MappingSlot> = Vec::new();
        std::mem::swap(&mut slots, &mut self.slots);
        let ghost old_slots = slots@;
        assert(old_slots.map_values(|s: MappingSlot| s.extension@) == old_keys);
        let ghost key = extension@;
        match pos {
            Some(i) => {
                slots.set(i, MappingSlot { extension, entry });
                let ghost new_keys = slots@.map_values(|s: MappingSlot| s.extension@);
                assert(new_keys =~= old_keys);
                self.slots = slots;
                proof {
                    assert(self.keys() == old_keys);
                    assert forall|k: Seq<char>| #[trigger] self.as_map().contains_key(k) implies
                        self.as_map()[k] == old_map.insert(key, entry@)[k] by {
                        let j = self.keys().index_of(k);
                        if k != key {
                            assert(j != i);
                        }
                    }
                    assert(self.as_map() =~= old_map.insert(key, entry@));
                }
            },
            None => {
                slots.push(MappingSlot { extension, entry });
                let ghost new_keys = slots@.map_values(|s: MappingSlot| s.extension@);
                assert(new_keys =~= old_keys.push(key));
                proof {
                    assert forall|a: int, b: int| 0 <= a < new_keys.len() && 0 <= b < new_keys.len()
                        && a != b implies new_keys[a] != new_keys[b] by {
                        if a == old_keys.len() {
                            assert(old_keys.contains(new_keys[b]) || b == a);
                        } else if b == old_keys.len() {
                            assert(old_keys.contains(new_keys[a]));
                        }
                    }
                }
                self.slots = slots;
                proof {
                    assert(self.keys() == new_keys);
                    let n = old_keys.len() as int;
                    lemma_index_of_unique(new_keys, n);
                    assert forall|k: Seq<char>| #[trigger] self.as_map().contains_key(k) implies
                        self.as_map()[k] == old_map.insert(key, entry@)[k] by {
                        if k != key {
                            let j = new_keys.index_of(k);
                            assert(j != n);
                            assert(old_keys[j] == k);
                            lemma_index_of_unique(old_keys, j);
                            lemma_index_of_unique(new_keys, j);
                        }
                    }
                    assert forall|k: Seq<char>| old_map.insert(key, entry@).contains_key(k) implies
                        #[trigger] self.as_map().contains_key(k) by {
                        if k != key {
                            let j = old_keys.index_of(k);
                            assert(new_keys[j] == k);
                        }
                    }
                    assert(self.as_map() =~= old_map.insert(key, entry@));
                }
            },
        }
    }

    /// Enable or disable the mapping registered under `extension` exactly;
    /// tells whether there was one.
    pub fn set_enabled(&mut self, extension: &str, enabled: bool) -> (r: bool)
        ensures
            r == old(self).as_map().contains_key(extension@),
            r ==> final(self).as_map() == old(self).as_map().insert(
                extension@,
                MappingEntryView { enabled: enabled, ..old(self).as_map()[extension@] },
            ),
            !r ==> final(self).as_map() == old(self).as_map(),
    {
        proof {
            use_type_invariant(&*self);
        }
        let ghost old_map = self.as_map();
        let ghost old_keys = self.keys();
        match self.position(extension) {
            Some(i) => {
                let mut slots: Vec<MappingSlot> = Vec::new();
                std::mem::swap(&mut slots, &mut self.slots);
                let ghost old_slots = slots@;
                let mut slot = slots.remove(i);
                slot.entry.enabled = enabled;
                slots.insert(i, slot);
                let ghost new_keys = slots@.map_values(|s: MappingSlot| s.extension@);
                assert(new_keys =~= old_keys);
                self.slots = slots;
                proof {
                    assert forall|k: Seq<char>| #[trigger] self.as_map().contains_key(k) implies
                        self.as_map()[k] == old_map.insert(
                            extension@,
                            MappingEntryView { enabled: enabled, ..old_map[extension@] },
                        )[k] by {
                        let j = self.keys().index_of(k);
                        if k != extension@ {
                            assert(j != i);
                            assert(self.slots@[j] == old_slots[j]);
                        } else {
                            assert(self.slots@[j].entry@ =~= MappingEntryView { enabled: enabled, ..old_map[extension@] });
                        }
                    }
                    assert(self.as_map() =~= old_map.insert(
                        extension@,
                        MappingEntryView { enabled: enabled, ..old_map[extension@] },
                    ));
                }
                true
            },
            None => false,
        }
    }
}

} // verus!

verus! {

/// An owned copy of a string slice.
pub fn owned(s: &str) -> (r: String)
    ensures
        r@ == s@,
{
    s.to_owned()
}

/// The entry that converts DWG drawings with the ODA File Converter.
pub open spec fn default_dwg_entry() -> MappingEntryView {
    MappingEntryView {
        source: CadFormat::Dwg,
        targets: seq![ConversionTarget::Pdf, ConversionTarget::Png, ConversionTarget::Thumbnail],
        command: "ODAFileConverter"@,
        args_template: seq!["{input_dir}"@, "{output_dir}"@, "0"@, "1"@, "0"@, "1"@],
        timeout_seconds: 120,
        enabled: true,
    }
}

/// The entry that converts DXF drawings with LibreOffice.
pub open spec fn default_dxf_entry() -> MappingEntryView {
    MappingEntryView {
        source: CadFormat::Dxf,
        targets: seq![
            ConversionTarget::Pdf,
            ConversionTarget::Png,
            ConversionTarget::Svg,
            ConversionTarget::Thumbnail,
        ],
        command: "libreoffice"@,
        args_template: seq![
            "--headless"@,
            "--convert-to"@,
            "{format}"@,
            "--outdir"@,
            "{output_dir}"@,
            "{input}"@,
        ],
        timeout_seconds: 120,
        enabled: true,
    }
}

/// The entry that converts STEP models with FreeCAD.
pub open spec fn default_step_entry() -> MappingEntryView {
    MappingEntryView {
        source: CadFormat::Step,
        targets: seq![ConversionTarget::Png, ConversionTarget::Thumbnail, ConversionTarget::Gltf],
        command: "freecad-cmd"@,
        args_template: seq![
            "--run"@,
            "convert_step.py"@,
            "--input"@,
            "{input}"@,
            "--output"@,
            "{output}"@,
            "--format"@,
            "{format}"@,
        ],
        timeout_seconds: 180,
        enabled: true,
    }
}

/// The entry that converts STL meshes with MeshLab.
pub open spec fn default_stl_entry() -> MappingEntryView {
    MappingEntryView {
        source: CadFormat::Stl,
        targets: seq![ConversionTarget::Png, ConversionTarget::Thumbnail, ConversionTarget::Gltf],
        command: "meshlab-server"@,
        args_template: seq!["-i"@, "{input}"@, "-o"@, "{output}"@],
        timeout_seconds: 120,
        enabled: true,
    }
}

/// The registry that `default_mappings` builds.
pub open spec fn default_mapping_view() -> Map<Seq<char>, MappingEntryView> {
    Map::<Seq<char>, MappingEntryView>::empty()
        .insert("dwg"@, default_dwg_entry())
        .insert("dxf"@, default_dxf_entry())
        .insert("step"@, default_step_entry())
        .insert("stl"@, default_stl_entry())
}

/// Whether, in an argument template, every input flag (`-i`, `--input`) is
/// followed by the input placeholder and every output flag (`-o`,
/// `--output`, `--outdir`) by the matching output placeholder.
pub open spec fn flags_precede_placeholders(t: Seq<Seq<char>>) -> bool {
    forall|i: int| 0 <= i < t.len() ==> {
        &&& (#[trigger] t[i] == "-i"@ || t[i] == "--input"@) ==> i + 1 < t.len() && t[i + 1] == "{input}"@
        &&& (t[i] == "-o"@ || t[i] == "--output"@) ==> i + 1 < t.len() && t[i + 1] == "{output}"@
        &&& t[i] == "--outdir"@ ==> i + 1 < t.len() && t[i + 1] == "{output_dir}"@
    }
}

/// The default registry: DWG through the ODA File Converter (input and output
/// directories first), DXF through LibreOffice (output directory after
/// `--outdir`, the input last), STEP through FreeCAD and STL through MeshLab
/// (input after the input flag, output after the output flag); in every
/// default template each flag is followed by its own placeholder.
pub proof fn lemma_default_templates()
    ensures
        default_mapping_view().dom() == set!["dwg"@, "dxf"@, "step"@, "stl"@],
        default_mapping_view()["dwg"@].command == "ODAFileConverter"@,
        default_mapping_view()["dwg"@].args_template == seq!["{input_dir}"@, "{output_dir}"@, "0"@, "1"@, "0"@, "1"@],
        default_mapping_view()["dxf"@].command == "libreoffice"@,
        default_mapping_view()["dxf"@].args_template == seq![
            "--headless"@, "--convert-to"@, "{format}"@, "--outdir"@, "{output_dir}"@, "{input}"@,
        ],
        default_mapping_view()["step"@].command == "freecad-cmd"@,
        default_mapping_view()["step"@].args_template == seq![
            "--run"@, "convert_step.py"@, "--input"@, "{input}"@, "--output"@, "{output}"@, "--format"@, "{format}"@,
        ],
        default_mapping_view()["stl"@].command == "meshlab-server"@,
        default_mapping_view()["stl"@].args_template == seq!["-i"@, "{input}"@, "-o"@, "{output}"@],
        default_mapping_view()["dwg"@].source == CadFormat::Dwg && default_mapping_view()["dwg"@].enabled
            && default_mapping_view()["dwg"@].timeout_seconds == 120
            && default_mapping_view()["dwg"@].targets == seq![ConversionTarget::Pdf, ConversionTarget::Png, ConversionTarget::Thumbnail],
        default_mapping_view()["dxf"@].source == CadFormat::Dxf && default_mapping_view()["dxf"@].enabled
            && default_mapping_view()["dxf"@].timeout_seconds == 120
            && default_mapping_view()["dxf"@].targets == seq![
                ConversionTarget::Pdf, ConversionTarget::Png, ConversionTarget::Svg, ConversionTarget::Thumbnail,
            ],
        default_mapping_view()["step"@].source == CadFormat::Step && default_mapping_view()["step"@].enabled
            && default_mapping_view()["step"@].timeout_seconds == 180
            && default_mapping_view()["step"@].targets == seq![ConversionTarget::Png, ConversionTarget::Thumbnail, ConversionTarget::Gltf],
        default_mapping_view()["stl"@].source == CadFormat::Stl && default_mapping_view()["stl"@].enabled
            && default_mapping_view()["stl"@].timeout_seconds == 120
            && default_mapping_view()["stl"@].targets == seq![ConversionTarget::Png, ConversionTarget::Thumbnail, ConversionTarget::Gltf],
        forall|k: Seq<char>| #[trigger] default_mapping_view().contains_key(k)
            ==> flags_precede_placeholders(default_mapping_view()[k].args_template),
{
    reveal_strlit("dwg");
    reveal_strlit("dxf");
    reveal_strlit("step");
    reveal_strlit("stl");
    assert("dwg"@[1] != "dxf"@[1]);
    assert("dwg"@[0] != "stl"@[0]);
    assert("dxf"@[0] != "stl"@[0]);
    assert("dwg"@.len() != "step"@.len());
    assert("dxf"@.len() != "step"@.len());
    assert("stl"@.len() != "step"@.len());
    let m = default_mapping_view();
    assert(m.dom() =~= set!["dwg"@, "dxf"@, "step"@, "stl"@]);
    reveal_strlit("-i");
    reveal_strlit("--input");
    reveal_strlit("-o");
    reveal_strlit("--output");
    reveal_strlit("--outdir");
    reveal_strlit("{input}");
    reveal_strlit("{output}");
    reveal_strlit("{output_dir}");
    reveal_strlit("{input_dir}");
    reveal_strlit("0");
    reveal_strlit("1");
    reveal_strlit("--headless");
    reveal_strlit("--convert-to");
    reveal_strlit("{format}");
    reveal_strlit("--run");
    reveal_strlit("convert_step.py");
    reveal_strlit("--format");
    assert("-i"@[1] != "-o"@[1]);
    assert("--input"@[2] != "--output"@[2]);
    assert("--output"@[2] != "--format"@[2]);
    assert("--input"@[2] != "--format"@[2]);
    assert("--outdir"@[5] != "--output"@[5]);
    assert("--headless"@.len() != "--outdir"@.len());
    let t = default_dwg_entry().args_template;
    assert forall|i: int| 0 <= i < t.len() implies {
        &&& (#[trigger] t[i] == "-i"@ || t[i] == "--input"@) ==> i + 1 < t.len() && t[i + 1] == "{input}"@
        &&& (t[i] == "-o"@ || t[i] == "--output"@) ==> i + 1 < t.len() && t[i + 1] == "{output}"@
        &&& t[i] == "--outdir"@ ==> i + 1 < t.len() && t[i + 1] == "{output_dir}"@
    } by {
        if i == 0 {
            assert(t[0] == "{input_dir}"@);
            assert("{input_dir}"@.len() != "-i"@.len());
            assert("{input_dir}"@.len() != "--input"@.len());
            assert("{input_dir}"@.len() != "-o"@.len());
            assert("{input_dir}"@.len() != "--output"@.len());
            assert("{input_dir}"@.len() != "--outdir"@.len());
        } else if i == 1 {
            assert(t[1] == "{output_dir}"@);
            assert("{output_dir}"@.len() != "-i"@.len());
            assert("{output_dir}"@.len() != "--input"@.len());
            assert("{output_dir}"@.len() != "-o"@.len());
            assert("{output_dir}"@.len() != "--output"@.len());
            assert("{output_dir}"@.len() != "--outdir"@.len());
        } else if i == 2 {
            assert(t[2] == "0"@);
            assert("0"@.len() != "-i"@.len());
            assert("0"@.len() != "--input"@.len());
            assert("0"@.len() != "-o"@.len());
            assert("0"@.len() != "--output"@.len());
            assert("0"@.len() != "--outdir"@.len());
        } else if i == 3 {
            assert(t[3] == "1"@);
            assert("1"@.len() != "-i"@.len());
            assert("1"@.len() != "--input"@.len());
            assert("1"@.len() != "-o"@.len());
            assert("1"@.len() != "--output"@.len());
            assert("1"@.len() != "--outdir"@.len());
        } else if i == 4 {
            assert(t[4] == "0"@);
            assert("0"@.len() != "-i"@.len());
            assert("0"@.len() != "--input"@.len());
            assert("0"@.len() != "-o"@.len());
            assert("0"@.len() != "--output"@.len());
            assert("0"@.len() != "--outdir"@.len());
        } else if i == 5 {
            assert(t[5] == "1"@);
            assert("1"@.len() != "-i"@.len());
            assert("1"@.len() != "--input"@.len());
            assert("1"@.len() != "-o"@.len());
            assert("1"@.len() != "--output"@.len());
            assert("1"@.len() != "--outdir"@.len());
        }
    }
    let t = default_dxf_entry().args_template;
    assert forall|i: int| 0 <= i < t.len() implies {
        &&& (#[trigger] t[i] == "-i"@ || t[i] == "--input"@) ==> i + 1 < t.len() && t[i + 1] == "{input}"@
        &&& (t[i] == "-o"@ || t[i] == "--output"@) ==> i + 1 < t.len() && t[i + 1] == "{output}"@
        &&& t[i] == "--outdir"@ ==> i + 1 < t.len() && t[i + 1] == "{output_dir}"@
    } by {
        if i == 0 {
            assert(t[0] == "--headless"@);
            assert("--headless"@.len() != "-i"@.len());
            assert("--headless"@.len() != "--input"@.len());
            assert("--headless"@.len() != "-o"@.len());
            assert("--headless"@.len() != "--output"@.len());
            assert("--headless"@.len() != "--outdir"@.len());
        } else if i == 1 {
            assert(t[1] == "--convert-to"@);
            assert("--convert-to"@.len() != "-i"@.len());
            assert("--convert-to"@.len() != "--input"@.len());
            assert("--convert-to"@.len() != "-o"@.len());
            assert("--convert-to"@.len() != "--output"@.len());
            assert("--convert-to"@.len() != "--outdir"@.len());
        } else if i == 2 {
            assert(t[2] == "{format}"@);
            assert("{format}"@.len() != "-i"@.len());
            assert("{format}"@.len() != "--input"@.len());
            assert("{format}"@.len() != "-o"@.len());
            assert("{format}"@[0] != "--output"@[0]);
            assert("{format}"@[0] != "--outdir"@[0]);
        } else if i == 3 {
            assert(t[3] == "--outdir"@);
            assert("--outdir"@.len() != "-i"@.len());
            assert("--outdir"@.len() != "--input"@.len());
            assert("--outdir"@.len() != "-o"@.len());
            assert("--outdir"@[5] != "--output"@[5]);
        } else if i == 4 {
            assert(t[4] == "{output_dir}"@);
            assert("{output_dir}"@.len() != "-i"@.len());
            assert("{output_dir}"@.len() != "--input"@.len());
            assert("{output_dir}"@.len() != "-o"@.len());
            assert("{output_dir}"@.len() != "--output"@.len());
            assert("{output_dir}"@.len() != "--outdir"@.len());
        } else if i == 5 {
            assert(t[5] == "{input}"@);
            assert("{input}"@.len() != "-i"@.len());
            assert("{input}"@[0] != "--input"@[0]);
            assert("{input}"@.len() != "-o"@.len());
            assert("{input}"@.len() != "--output"@.len());
            assert("{input}"@.len() != "--outdir"@.len());
        }
    }
    let t = default_step_entry().args_template;
    assert forall|i: int| 0 <= i < t.len() implies {
        &&& (#[trigger] t[i] == "-i"@ || t[i] == "--input"@) ==> i + 1 < t.len() && t[i + 1] == "{input}"@
        &&& (t[i] == "-o"@ || t[i] == "--output"@) ==> i + 1 < t.len() && t[i + 1] == "{output}"@
        &&& t[i] == "--outdir"@ ==> i + 1 < t.len() && t[i + 1] == "{output_dir}"@
    } by {
        if i == 0 {
            assert(t[0] == "--run"@);
            assert("--run"@.len() != "-i"@.len());
            assert("--run"@.len() != "--input"@.len());
            assert("--run"@.len() != "-o"@.len());
            assert("--run"@.len() != "--output"@.len());
            assert("--run"@.len() != "--outdir"@.len());
        } else if i == 1 {
            assert(t[1] == "convert_step.py"@);
            assert("convert_step.py"@.len() != "-i"@.len());
            assert("convert_step.py"@.len() != "--input"@.len());
            assert("convert_step.py"@.len() != "-o"@.len());
            assert("convert_step.py"@.len() != "--output"@.len());
            assert("convert_step.py"@.len() != "--outdir"@.len());
        } else if i == 2 {
            assert(t[2] == "--input"@);
            assert("--input"@.len() != "-i"@.len());
            assert("--input"@.len() != "-o"@.len());
            assert("--input"@.len() != "--output"@.len());
            assert("--input"@.len() != "--outdir"@.len());
        } else if i == 3 {
            assert(t[3] == "{input}"@);
            assert("{input}"@.len() != "-i"@.len());
            assert("{input}"@[0] != "--input"@[0]);
            assert("{input}"@.len() != "-o"@.len());
            assert("{input}"@.len() != "--output"@.len());
            assert("{input}"@.len() != "--outdir"@.len());
        } else if i == 4 {
            assert(t[4] == "--output"@);
            assert("--output"@.len() != "-i"@.len());
            assert("--output"@.len() != "--input"@.len());
            assert("--output"@.len() != "-o"@.len());
            assert("--output"@[5] != "--outdir"@[5]);
        } else if i == 5 {
            assert(t[5] == "{output}"@);
            assert("{output}"@.len() != "-i"@.len());
            assert("{output}"@.len() != "--input"@.len());
            assert("{output}"@.len() != "-o"@.len());
            assert("{output}"@[0] != "--output"@[0]);
            assert("{output}"@[0] != "--outdir"@[0]);
        } else if i == 6 {
            assert(t[6] == "--format"@);
            assert("--format"@.len() != "-i"@.len());
            assert("--format"@.len() != "--input"@.len());
            assert("--format"@.len() != "-o"@.len());
            assert("--format"@[2] != "--output"@[2]);
            assert("--format"@[2] != "--outdir"@[2]);
        } else if i == 7 {
            assert(t[7] == "{format}"@);
            assert("{format}"@.len() != "-i"@.len());
            assert("{format}"@.len() != "--input"@.len());
            assert("{format}"@.len() != "-o"@.len());
            assert("{format}"@[0] != "--output"@[0]);
            assert("{format}"@[0] != "--outdir"@[0]);
        }
    }
    let t = default_stl_entry().args_template;
    assert forall|i: int| 0 <= i < t.len() implies {
        &&& (#[trigger] t[i] == "-i"@ || t[i] == "--input"@) ==> i + 1 < t.len() && t[i + 1] == "{input}"@
        &&& (t[i] == "-o"@ || t[i] == "--output"@) ==> i + 1 < t.len() && t[i + 1] == "{output}"@
        &&& t[i] == "--outdir"@ ==> i + 1 < t.len() && t[i + 1] == "{output_dir}"@
    } by {
        if i == 0 {
            assert(t[0] == "-i"@);
            assert("-i"@.len() != "--input"@.len());
            assert("-i"@[1] != "-o"@[1]);
            assert("-i"@.len() != "--output"@.len());
            assert("-i"@.len() != "--outdir"@.len());
        } else if i == 1 {
            assert(t[1] == "{input}"@);
            assert("{input}"@.len() != "-i"@.len());
            assert("{input}"@[0] != "--input"@[0]);
            assert("{input}"@.len() != "-o"@.len());
            assert("{input}"@.len() != "--output"@.len());
            assert("{input}"@.len() != "--outdir"@.len());
        } else if i == 2 {
            assert(t[2] == "-o"@);
            assert("-o"@[1] != "-i"@[1]);
            assert("-o"@.len() != "--input"@.len());
            assert("-o"@.len() != "--output"@.len());
            assert("-o"@.len() != "--outdir"@.len());
        } else if i == 3 {
            assert(t[3] == "{output}"@);
            assert("{output}"@.len() != "-i"@.len());
            assert("{output}"@.len() != "--input"@.len());
            assert("{output}"@.len() != "-o"@.len());
            assert("{output}"@[0] != "--output"@[0]);
            assert("{output}"@[0] != "--outdir"@[0]);
        }
    }

}

fn string_list(items: &[&str]) -> (r: Vec<String>)
    ensures
        r.deep_view() == items@.map_values(|s: &str| s@),
{
    let mut r: Vec<String> = Vec::new();
    let mut i: usize = 0;
    while i < items.len()
        invariant
            i <= items@.len(),
            r.deep_view() =~= items@.take(i as int).map_values(|s: &str| s@),
        decreases items@.len() - i,
    {
        let s = owned(items[i]);
        let ghost old_r = r.deep_view();
        r.push(s);
        assert(r.deep_view() =~= old_r.push(s@));
        assert(items@.take(i + 1).map_values(|s: &str| s@) =~= items@.take(i as int).map_values(
            |s: &str| s@,
        ).push(items@[i as int]@));
        i = i + 1;
    }
    assert(items@.take(items@.len() as int) =~= items@);
    r
}

impl ConversionMapping {
    /// Create default mappings using common CAD conversion tools.
    pub fn default_mappings() -> (r: ConversionMapping)
        ensures
            r.as_map() == default_mapping_view(),
    {
        let mut m = ConversionMapping::new();
        let a = string_list(&["{input_dir}", "{output_dir}", "0", "1", "0", "1"]);
        assert(a.deep_view() =~= default_dwg_entry().args_template);
        m.register(
            owned("dwg"),
            ConversionMappingEntry {
                source: CadFormat::Dwg,
                targets: vec![ConversionTarget::Pdf, ConversionTarget::Png, ConversionTarget::Thumbnail],
                command: owned("ODAFileConverter"),
                args_template: a,
                timeout_seconds: 120,
                enabled: true,
            },
        );
        let a = string_list(
            &["--headless", "--convert-to", "{format}", "--outdir", "{output_dir}", "{input}"],
        );
        assert(a.deep_view() =~= default_dxf_entry().args_template);
        m.register(
            owned("dxf"),
            ConversionMappingEntry {
                source: CadFormat::Dxf,
                targets: vec![
                    ConversionTarget::Pdf,
                    ConversionTarget::Png,
                    ConversionTarget::Svg,
                    ConversionTarget::Thumbnail,
                ],
                command: owned("libreoffice"),
                args_template: a,
                timeout_seconds: 120,
                enabled: true,
            },
        );
        let a = string_list(
            &[
                "--run",
                "convert_step.py",
                "--input",
                "{input}",
                "--output",
                "{output}",
                "--format",
                "{format}",
            ],
        );
        assert(a.deep_view() =~= default_step_entry().args_template);
        m.register(
            owned("step"),
            ConversionMappingEntry {
                source: CadFormat::Step,
                targets: vec![ConversionTarget::Png, ConversionTarget::Thumbnail, ConversionTarget::Gltf],
                command: owned("freecad-cmd"),
                args_template: a,
                timeout_seconds: 180,
                enabled: true,
            },
        );
        let a = string_list(&["-i", "{input}", "-o", "{output}"]);
        assert(a.deep_view() =~= default_stl_entry().args_template);
        m.register(
            owned("stl"),
            ConversionMappingEntry {
                source: CadFormat::Stl,
                targets: vec![ConversionTarget::Png, ConversionTarget::Thumbnail, ConversionTarget::Gltf],
                command: owned("meshlab-server"),
                args_template: a,
                timeout_seconds: 120,
                enabled: true,
            },
        );
        assert(m.as_map() =~= default_mapping_view());
        m
    }
}

impl Default for ConversionMapping {
    fn default() -> (r: ConversionMapping)
        ensures
            r.as_map() == default_mapping_view(),
    {
        ConversionMapping::default_mappings()
    }
}

} // verus!
