//! Domain models: file types, conversion modes, inputs, outputs, options.

use vstd::prelude::*;
use crate::error::ConversionError;
use crate::mapping::is_word;
use crate::paths::{file_name, last_index_of, path_file_name, find_last, slice_vec, forward_slashes, normalize_path_for_python, name_extension, extension_of_name};
use crate::text::{occurs_at, chars_of, ascii_lower, to_ascii_lowercase, concat3, string_from_chars};

verus! {

/// All recognized input file types.
#[derive(Debug, Clone, Copy, PartialEq, Eq, Hash, Structural)]
pub enum FileType {
    /// Parasolid text (.x_t)
    Parasolid,
    /// Parasolid binary (.x_b)
    ParasolidBinary,
    /// CATIA V5 Part (.catpart)
    CatiaV5Part,
    /// CATIA V5 Product (.catproduct)
    CatiaV5Product,
    /// Pro/ENGINEER Model (.model)
    ProEngineerModel,
    /// IGES (.igs)
    Iges,
    /// IGES alternate extension (.iges)
    IgesAlt,
    /// Inventor Part (.ipt)
    InventorPart,
    /// Inventor Assembly (.iam)
    InventorAssembly,
    /// SolidWorks Part (.sldprt)
    SolidWorksPart,
    /// SolidWorks Assembly (.sldasm)
    SolidWorksAssembly,
    /// ACIS SAT (.sat)
    Acis,
    /// STEP (.stp)
    Step,
    /// STEP alternate extension (.step)
    StepAlt,
    /// STEP P21 (.p21)
    StepP21,
    /// VRML (.wrl)
    Vrml,
    /// Pro/ENGINEER Assembly (.asm.9) — compound extension
    ProEngineerAssembly,
    /// JT / Jupiter Tessellation (.jt)
    JupiterTessellation,
    /// AutoCAD DWG (.dwg)
    AutoCad,
    /// Unigraphics / NX Part (.prt)
    UnigraphicsPart,
    /// Jupiter HDF5 (.jth5)
    JupiterHdf5,
    /// Nastran bulk data (.bdf)
    NastranBdf,
    /// Nastran data file (.dat) — treated same as .bdf
    NastranDat,
    /// TechnoStar Geometry (.tsg)
    TechnoStarGeometry,
    /// Nastran OP2 results (.op2)
    NastranOp2,
    /// Abaqus ODB results
    AbaqusOdb,
    /// ADVenture Cluster results (.adv)
    ADVC,
    /// ZIP archive (.zip)
    Zip,
    /// VTFx visualization (.vtfx) — pass-through
    Vtfx,
    /// Directory input
    Directory,
    /// Unrecognized file type
    Unknown,
}

/// The file type registered for a lowercase extension.
pub open spec fn file_type_of_extension(ext: Seq<char>) -> Option<FileType> {
    if ext == "x_t"@ { Some(FileType::Parasolid) }
    else if ext == "x_b"@ { Some(FileType::ParasolidBinary) }
    else if ext == "catpart"@ { Some(FileType::CatiaV5Part) }
    else if ext == "catproduct"@ { Some(FileType::CatiaV5Product) }
    else if ext == "model"@ { Some(FileType::ProEngineerModel) }
    else if ext == "igs"@ { Some(FileType::Iges) }
    else if ext == "iges"@ { Some(FileType::IgesAlt) }
    else if ext == "ipt"@ { Some(FileType::InventorPart) }
    else if ext == "iam"@ { Some(FileType::InventorAssembly) }
    else if ext == "sldprt"@ { Some(FileType::SolidWorksPart) }
    else if ext == "sldasm"@ { Some(FileType::SolidWorksAssembly) }
    else if ext == "sat"@ { Some(FileType::Acis) }
    else if ext == "stp"@ { Some(FileType::Step) }
    else if ext == "step"@ { Some(FileType::StepAlt) }
    else if ext == "p21"@ { Some(FileType::StepP21) }
    else if ext == "wrl"@ { Some(FileType::Vrml) }
    else if ext == "jt"@ { Some(FileType::JupiterTessellation) }
    else if ext == "dwg"@ { Some(FileType::AutoCad) }
    else if ext == "prt"@ { Some(FileType::UnigraphicsPart) }
    else if ext == "jth5"@ { Some(FileType::JupiterHdf5) }
    else if ext == "bdf"@ { Some(FileType::NastranBdf) }
    else if ext == "dat"@ { Some(FileType::NastranDat) }
    else if ext == "tsg"@ { Some(FileType::TechnoStarGeometry) }
    else if ext == "op2"@ { Some(FileType::NastranOp2) }
    else if ext == "adv"@ { Some(FileType::ADVC) }
    else if ext == "zip"@ { Some(FileType::Zip) }
    else if ext == "vtfx"@ { Some(FileType::Vtfx) }
    else { None }
}

/// The table of supported extensions: each of these lowercase extensions
/// names exactly this file type.
pub proof fn lemma_extension_table()
    ensures
        file_type_of_extension("x_t"@) == Some(FileType::Parasolid),
        file_type_of_extension("x_b"@) == Some(FileType::ParasolidBinary),
        file_type_of_extension("catpart"@) == Some(FileType::CatiaV5Part),
        file_type_of_extension("catproduct"@) == Some(FileType::CatiaV5Product),
        file_type_of_extension("model"@) == Some(FileType::ProEngineerModel),
        file_type_of_extension("igs"@) == Some(FileType::Iges),
        file_type_of_extension("iges"@) == Some(FileType::IgesAlt),
        file_type_of_extension("ipt"@) == Some(FileType::InventorPart),
        file_type_of_extension("iam"@) == Some(FileType::InventorAssembly),
        file_type_of_extension("sldprt"@) == Some(FileType::SolidWorksPart),
        file_type_of_extension("sldasm"@) == Some(FileType::SolidWorksAssembly),
        file_type_of_extension("sat"@) == Some(FileType::Acis),
        file_type_of_extension("stp"@) == Some(FileType::Step),
        file_type_of_extension("step"@) == Some(FileType::StepAlt),
        file_type_of_extension("p21"@) == Some(FileType::StepP21),
        file_type_of_extension("wrl"@) == Some(FileType::Vrml),
        file_type_of_extension("jt"@) == Some(FileType::JupiterTessellation),
        file_type_of_extension("dwg"@) == Some(FileType::AutoCad),
        file_type_of_extension("prt"@) == Some(FileType::UnigraphicsPart),
        file_type_of_extension("jth5"@) == Some(FileType::JupiterHdf5),
        file_type_of_extension("bdf"@) == Some(FileType::NastranBdf),
        file_type_of_extension("dat"@) == Some(FileType::NastranDat),
        file_type_of_extension("tsg"@) == Some(FileType::TechnoStarGeometry),
        file_type_of_extension("op2"@) == Some(FileType::NastranOp2),
        file_type_of_extension("adv"@) == Some(FileType::ADVC),
        file_type_of_extension("zip"@) == Some(FileType::Zip),
        file_type_of_extension("vtfx"@) == Some(FileType::Vtfx),
{
    reveal_strlit("x_t");
    reveal_strlit("x_b");
    reveal_strlit("catpart");
    reveal_strlit("catproduct");
    reveal_strlit("model");
    reveal_strlit("igs");
    reveal_strlit("iges");
    reveal_strlit("ipt");
    reveal_strlit("iam");
    reveal_strlit("sldprt");
    reveal_strlit("sldasm");
    reveal_strlit("sat");
    reveal_strlit("stp");
    reveal_strlit("step");
    reveal_strlit("p21");
    reveal_strlit("wrl");
    reveal_strlit("jt");
    reveal_strlit("dwg");
    reveal_strlit("prt");
    reveal_strlit("jth5");
    reveal_strlit("bdf");
    reveal_strlit("dat");
    reveal_strlit("tsg");
    reveal_strlit("op2");
    reveal_strlit("adv");
    reveal_strlit("zip");
    reveal_strlit("vtfx");
    assert(file_type_of_extension("x_t"@) == Some(FileType::Parasolid)) by {
    }
    assert(file_type_of_extension("x_b"@) == Some(FileType::ParasolidBinary)) by {
        assert("x_b"@[2] != "x_t"@[2]);
    }
    assert(file_type_of_extension("catpart"@) == Some(FileType::CatiaV5Part)) by {
        assert("catpart"@.len() != "x_t"@.len());
        assert("catpart"@.len() != "x_b"@.len());
    }
    assert(file_type_of_extension("catproduct"@) == Some(FileType::CatiaV5Product)) by {
        assert("catproduct"@.len() != "x_t"@.len());
        assert("catproduct"@.len() != "x_b"@.len());
        assert("catproduct"@.len() != "catpart"@.len());
    }
    assert(file_type_of_extension("model"@) == Some(FileType::ProEngineerModel)) by {
        assert("model"@.len() != "x_t"@.len());
        assert("model"@.len() != "x_b"@.len());
        assert("model"@.len() != "catpart"@.len());
        assert("model"@.len() != "catproduct"@.len());
    }
    assert(file_type_of_extension("igs"@) == Some(FileType::Iges)) by {
        assert("igs"@[0] != "x_t"@[0]);
        assert("igs"@[0] != "x_b"@[0]);
        assert("igs"@.len() != "catpart"@.len());
        assert("igs"@.len() != "catproduct"@.len());
        assert("igs"@.len() != "model"@.len());
    }
    assert(file_type_of_extension("iges"@) == Some(FileType::IgesAlt)) by {
        assert("iges"@.len() != "x_t"@.len());
        assert("iges"@.len() != "x_b"@.len());
        assert("iges"@.len() != "catpart"@.len());
        assert("iges"@.len() != "catproduct"@.len());
        assert("iges"@.len() != "model"@.len());
        assert("iges"@.len() != "igs"@.len());
    }
    assert(file_type_of_extension("ipt"@) == Some(FileType::InventorPart)) by {
        assert("ipt"@[0] != "x_t"@[0]);
        assert("ipt"@[0] != "x_b"@[0]);
        assert("ipt"@.len() != "catpart"@.len());
        assert("ipt"@.len() != "catproduct"@.len());
        assert("ipt"@.len() != "model"@.len());
        assert("ipt"@[1] != "igs"@[1]);
        assert("ipt"@.len() != "iges"@.len());
    }
    assert(file_type_of_extension("iam"@) == Some(FileType::InventorAssembly)) by {
        assert("iam"@[0] != "x_t"@[0]);
        assert("iam"@[0] != "x_b"@[0]);
        assert("iam"@.len() != "catpart"@.len());
        assert("iam"@.len() != "catproduct"@.len());
        assert("iam"@.len() != "model"@.len());
        assert("iam"@[1] != "igs"@[1]);
        assert("iam"@.len() != "iges"@.len());
        assert("iam"@[1] != "ipt"@[1]);
    }
    assert(file_type_of_extension("sldprt"@) == Some(FileType::SolidWorksPart)) by {
        assert("sldprt"@.len() != "x_t"@.len());
        assert("sldprt"@.len() != "x_b"@.len());
        assert("sldprt"@.len() != "catpart"@.len());
        assert("sldprt"@.len() != "catproduct"@.len());
        assert("sldprt"@.len() != "model"@.len());
        assert("sldprt"@.len() != "igs"@.len());
        assert("sldprt"@.len() != "iges"@.len());
        assert("sldprt"@.len() != "ipt"@.len());
        assert("sldprt"@.len() != "iam"@.len());
    }
    assert(file_type_of_extension("sldasm"@) == Some(FileType::SolidWorksAssembly)) by {
        assert("sldasm"@.len() != "x_t"@.len());
        assert("sldasm"@.len() != "x_b"@.len());
        assert("sldasm"@.len() != "catpart"@.len());
        assert("sldasm"@.len() != "catproduct"@.len());
        assert("sldasm"@.len() != "model"@.len());
        assert("sldasm"@.len() != "igs"@.len());
        assert("sldasm"@.len() != "iges"@.len());
        assert("sldasm"@.len() != "ipt"@.len());
        assert("sldasm"@.len() != "iam"@.len());
        assert("sldasm"@[3] != "sldprt"@[3]);
    }
    assert(file_type_of_extension("sat"@) == Some(FileType::Acis)) by {
        assert("sat"@[0] != "x_t"@[0]);
        assert("sat"@[0] != "x_b"@[0]);
        assert("sat"@.len() != "catpart"@.len());
        assert("sat"@.len() != "catproduct"@.len());
        assert("sat"@.len() != "model"@.len());
        assert("sat"@[0] != "igs"@[0]);
        assert("sat"@.len() != "iges"@.len());
        assert("sat"@[0] != "ipt"@[0]);
        assert("sat"@[0] != "iam"@[0]);
        assert("sat"@.len() != "sldprt"@.len());
        assert("sat"@.len() != "sldasm"@.len());
    }
    assert(file_type_of_extension("stp"@) == Some(FileType::Step)) by {
        assert("stp"@[0] != "x_t"@[0]);
        assert("stp"@[0] != "x_b"@[0]);
        assert("stp"@.len() != "catpart"@.len());
        assert("stp"@.len() != "catproduct"@.len());
        assert("stp"@.len() != "model"@.len());
        assert("stp"@[0] != "igs"@[0]);
        assert("stp"@.len() != "iges"@.len());
        assert("stp"@[0] != "ipt"@[0]);
        assert("stp"@[0] != "iam"@[0]);
        assert("stp"@.len() != "sldprt"@.len());
        assert("stp"@.len() != "sldasm"@.len());
        assert("stp"@[1] != "sat"@[1]);
    }
    assert(file_type_of_extension("step"@) == Some(FileType::StepAlt)) by {
        assert("step"@.len() != "x_t"@.len());
        assert("step"@.len() != "x_b"@.len());
        assert("step"@.len() != "catpart"@.len());
        assert("step"@.len() != "catproduct"@.len());
        assert("step"@.len() != "model"@.len());
        assert("step"@.len() != "igs"@.len());
        assert("step"@[0] != "iges"@[0]);
        assert("step"@.len() != "ipt"@.len());
        assert("step"@.len() != "iam"@.len());
        assert("step"@.len() != "sldprt"@.len());
        assert("step"@.len() != "sldasm"@.len());
        assert("step"@.len() != "sat"@.len());
        assert("step"@.len() != "stp"@.len());
    }
    assert(file_type_of_extension("p21"@) == Some(FileType::StepP21)) by {
        assert("p21"@[0] != "x_t"@[0]);
        assert("p21"@[0] != "x_b"@[0]);
        assert("p21"@.len() != "catpart"@.len());
        assert("p21"@.len() != "catproduct"@.len());
        assert("p21"@.len() != "model"@.len());
        assert("p21"@[0] != "igs"@[0]);
        assert("p21"@.len() != "iges"@.len());
        assert("p21"@[0] != "ipt"@[0]);
        assert("p21"@[0] != "iam"@[0]);
        assert("p21"@.len() != "sldprt"@.len());
        assert("p21"@.len() != "sldasm"@.len());
        assert("p21"@[0] != "sat"@[0]);
        assert("p21"@[0] != "stp"@[0]);
        assert("p21"@.len() != "step"@.len());
    }
    assert(file_type_of_extension("wrl"@) == Some(FileType::Vrml)) by {
        assert("wrl"@[0] != "x_t"@[0]);
        assert("wrl"@[0] != "x_b"@[0]);
        assert("wrl"@.len() != "catpart"@.len());
        assert("wrl"@.len() != "catproduct"@.len());
        assert("wrl"@.len() != "model"@.len());
        assert("wrl"@[0] != "igs"@[0]);
        assert("wrl"@.len() != "iges"@.len());
        assert("wrl"@[0] != "ipt"@[0]);
        assert("wrl"@[0] != "iam"@[0]);
        assert("wrl"@.len() != "sldprt"@.len());
        assert("wrl"@.len() != "sldasm"@.len());
        assert("wrl"@[0] != "sat"@[0]);
        assert("wrl"@[0] != "stp"@[0]);
        assert("wrl"@.len() != "step"@.len());
        assert("wrl"@[0] != "p21"@[0]);
    }
    assert(file_type_of_extension("jt"@) == Some(FileType::JupiterTessellation)) by {
        assert("jt"@.len() != "x_t"@.len());
        assert("jt"@.len() != "x_b"@.len());
        assert("jt"@.len() != "catpart"@.len());
        assert("jt"@.len() != "catproduct"@.len());
        assert("jt"@.len() != "model"@.len());
        assert("jt"@.len() != "igs"@.len());
        assert("jt"@.len() != "iges"@.len());
        assert("jt"@.len() != "ipt"@.len());
        assert("jt"@.len() != "iam"@.len());
        assert("jt"@.len() != "sldprt"@.len());
        assert("jt"@.len() != "sldasm"@.len());
        assert("jt"@.len() != "sat"@.len());
        assert("jt"@.len() != "stp"@.len());
        assert("jt"@.len() != "step"@.len());
        assert("jt"@.len() != "p21"@.len());
        assert("jt"@.len() != "wrl"@.len());
    }
    assert(file_type_of_extension("dwg"@) == Some(FileType::AutoCad)) by {
        assert("dwg"@[0] != "x_t"@[0]);
        assert("dwg"@[0] != "x_b"@[0]);
        assert("dwg"@.len() != "catpart"@.len());
        assert("dwg"@.len() != "catproduct"@.len());
        assert("dwg"@.len() != "model"@.len());
        assert("dwg"@[0] != "igs"@[0]);
        assert("dwg"@.len() != "iges"@.len());
        assert("dwg"@[0] != "ipt"@[0]);
        assert("dwg"@[0] != "iam"@[0]);
        assert("dwg"@.len() != "sldprt"@.len());
        assert("dwg"@.len() != "sldasm"@.len());
        assert("dwg"@[0] != "sat"@[0]);
        assert("dwg"@[0] != "stp"@[0]);
        assert("dwg"@.len() != "step"@.len());
        assert("dwg"@[0] != "p21"@[0]);
        assert("dwg"@[0] != "wrl"@[0]);
        assert("dwg"@.len() != "jt"@.len());
    }
    assert(file_type_of_extension("prt"@) == Some(FileType::UnigraphicsPart)) by {
        assert("prt"@[0] != "x_t"@[0]);
        assert("prt"@[0] != "x_b"@[0]);
        assert("prt"@.len() != "catpart"@.len());
        assert("prt"@.len() != "catproduct"@.len());
        assert("prt"@.len() != "model"@.len());
        assert("prt"@[0] != "igs"@[0]);
        assert("prt"@.len() != "iges"@.len());
        assert("prt"@[0] != "ipt"@[0]);
        assert("prt"@[0] != "iam"@[0]);
        assert("prt"@.len() != "sldprt"@.len());
        assert("prt"@.len() != "sldasm"@.len());
        assert("prt"@[0] != "sat"@[0]);
        assert("prt"@[0] != "stp"@[0]);
        assert("prt"@.len() != "step"@.len());
        assert("prt"@[1] != "p21"@[1]);
        assert("prt"@[0] != "wrl"@[0]);
        assert("prt"@.len() != "jt"@.len());
        assert("prt"@[0] != "dwg"@[0]);
    }
    assert(file_type_of_extension("jth5"@) == Some(FileType::JupiterHdf5)) by {
        assert("jth5"@.len() != "x_t"@.len());
        assert("jth5"@.len() != "x_b"@.len());
        assert("jth5"@.len() != "catpart"@.len());
        assert("jth5"@.len() != "catproduct"@.len());
        assert("jth5"@.len() != "model"@.len());
        assert("jth5"@.len() != "igs"@.len());
        assert("jth5"@[0] != "iges"@[0]);
        assert("jth5"@.len() != "ipt"@.len());
        assert("jth5"@.len() != "iam"@.len());
        assert("jth5"@.len() != "sldprt"@.len());
        assert("jth5"@.len() != "sldasm"@.len());
        assert("jth5"@.len() != "sat"@.len());
        assert("jth5"@.len() != "stp"@.len());
        assert("jth5"@[0] != "step"@[0]);
        assert("jth5"@.len() != "p21"@.len());
        assert("jth5"@.len() != "wrl"@.len());
        assert("jth5"@.len() != "jt"@.len());
        assert("jth5"@.len() != "dwg"@.len());
        assert("jth5"@.len() != "prt"@.len());
    }
    assert(file_type_of_extension("bdf"@) == Some(FileType::NastranBdf)) by {
        assert("bdf"@[0] != "x_t"@[0]);
        assert("bdf"@[0] != "x_b"@[0]);
        assert("bdf"@.len() != "catpart"@.len());
        assert("bdf"@.len() != "catproduct"@.len());
        assert("bdf"@.len() != "model"@.len());
        assert("bdf"@[0] != "igs"@[0]);
        assert("bdf"@.len() != "iges"@.len());
        assert("bdf"@[0] != "ipt"@[0]);
        assert("bdf"@[0] != "iam"@[0]);
        assert("bdf"@.len() != "sldprt"@.len());
        assert("bdf"@.len() != "sldasm"@.len());
        assert("bdf"@[0] != "sat"@[0]);
        assert("bdf"@[0] != "stp"@[0]);
        assert("bdf"@.len() != "step"@.len());
        assert("bdf"@[0] != "p21"@[0]);
        assert("bdf"@[0] != "wrl"@[0]);
        assert("bdf"@.len() != "jt"@.len());
        assert("bdf"@[0] != "dwg"@[0]);
        assert("bdf"@[0] != "prt"@[0]);
        assert("bdf"@.len() != "jth5"@.len());
    }
    assert(file_type_of_extension("dat"@) == Some(FileType::NastranDat)) by {
        assert("dat"@[0] != "x_t"@[0]);
        assert("dat"@[0] != "x_b"@[0]);
        assert("dat"@.len() != "catpart"@.len());
        assert("dat"@.len() != "catproduct"@.len());
        assert("dat"@.len() != "model"@.len());
        assert("dat"@[0] != "igs"@[0]);
        assert("dat"@.len() != "iges"@.len());
        assert("dat"@[0] != "ipt"@[0]);
        assert("dat"@[0] != "iam"@[0]);
        assert("dat"@.len() != "sldprt"@.len());
        assert("dat"@.len() != "sldasm"@.len());
        assert("dat"@[0] != "sat"@[0]);
        assert("dat"@[0] != "stp"@[0]);
        assert("dat"@.len() != "step"@.len());
        assert("dat"@[0] != "p21"@[0]);
        assert("dat"@[0] != "wrl"@[0]);
        assert("dat"@.len() != "jt"@.len());
        assert("dat"@[1] != "dwg"@[1]);
        assert("dat"@[0] != "prt"@[0]);
        assert("dat"@.len() != "jth5"@.len());
        assert("dat"@[0] != "bdf"@[0]);
    }
    assert(file_type_of_extension("tsg"@) == Some(FileType::TechnoStarGeometry)) by {
        assert("tsg"@[0] != "x_t"@[0]);
        assert("tsg"@[0] != "x_b"@[0]);
        assert("tsg"@.len() != "catpart"@.len());
        assert("tsg"@.len() != "catproduct"@.len());
        assert("tsg"@.len() != "model"@.len());
        assert("tsg"@[0] != "igs"@[0]);
        assert("tsg"@.len() != "iges"@.len());
        assert("tsg"@[0] != "ipt"@[0]);
        assert("tsg"@[0] != "iam"@[0]);
        assert("tsg"@.len() != "sldprt"@.len());
        assert("tsg"@.len() != "sldasm"@.len());
        assert("tsg"@[0] != "sat"@[0]);
        assert("tsg"@[0] != "stp"@[0]);
        assert("tsg"@.len() != "step"@.len());
        assert("tsg"@[0] != "p21"@[0]);
        assert("tsg"@[0] != "wrl"@[0]);
        assert("tsg"@.len() != "jt"@.len());
        assert("tsg"@[0] != "dwg"@[0]);
        assert("tsg"@[0] != "prt"@[0]);
        assert("tsg"@.len() != "jth5"@.len());
        assert("tsg"@[0] != "bdf"@[0]);
        assert("tsg"@[0] != "dat"@[0]);
    }
    assert(file_type_of_extension("op2"@) == Some(FileType::NastranOp2)) by {
        assert("op2"@[0] != "x_t"@[0]);
        assert("op2"@[0] != "x_b"@[0]);
        assert("op2"@.len() != "catpart"@.len());
        assert("op2"@.len() != "catproduct"@.len());
        assert("op2"@.len() != "model"@.len());
        assert("op2"@[0] != "igs"@[0]);
        assert("op2"@.len() != "iges"@.len());
        assert("op2"@[0] != "ipt"@[0]);
        assert("op2"@[0] != "iam"@[0]);
        assert("op2"@.len() != "sldprt"@.len());
        assert("op2"@.len() != "sldasm"@.len());
        assert("op2"@[0] != "sat"@[0]);
        assert("op2"@[0] != "stp"@[0]);
        assert("op2"@.len() != "step"@.len());
        assert("op2"@[0] != "p21"@[0]);
        assert("op2"@[0] != "wrl"@[0]);
        assert("op2"@.len() != "jt"@.len());
        assert("op2"@[0] != "dwg"@[0]);
        assert("op2"@[0] != "prt"@[0]);
        assert("op2"@.len() != "jth5"@.len());
        assert("op2"@[0] != "bdf"@[0]);
        assert("op2"@[0] != "dat"@[0]);
        assert("op2"@[0] != "tsg"@[0]);
    }
    assert(file_type_of_extension("adv"@) == Some(FileType::ADVC)) by {
        assert("adv"@[0] != "x_t"@[0]);
        assert("adv"@[0] != "x_b"@[0]);
        assert("adv"@.len() != "catpart"@.len());
        assert("adv"@.len() != "catproduct"@.len());
        assert("adv"@.len() != "model"@.len());
        assert("adv"@[0] != "igs"@[0]);
        assert("adv"@.len() != "iges"@.len());
        assert("adv"@[0] != "ipt"@[0]);
        assert("adv"@[0] != "iam"@[0]);
        assert("adv"@.len() != "sldprt"@.len());
        assert("adv"@.len() != "sldasm"@.len());
        assert("adv"@[0] != "sat"@[0]);
        assert("adv"@[0] != "stp"@[0]);
        assert("adv"@.len() != "step"@.len());
        assert("adv"@[0] != "p21"@[0]);
        assert("adv"@[0] != "wrl"@[0]);
        assert("adv"@.len() != "jt"@.len());
        assert("adv"@[0] != "dwg"@[0]);
        assert("adv"@[0] != "prt"@[0]);
        assert("adv"@.len() != "jth5"@.len());
        assert("adv"@[0] != "bdf"@[0]);
        assert("adv"@[0] != "dat"@[0]);
        assert("adv"@[0] != "tsg"@[0]);
        assert("adv"@[0] != "op2"@[0]);
    }
    assert(file_type_of_extension("zip"@) == Some(FileType::Zip)) by {
        assert("zip"@[0] != "x_t"@[0]);
        assert("zip"@[0] != "x_b"@[0]);
        assert("zip"@.len() != "catpart"@.len());
        assert("zip"@.len() != "catproduct"@.len());
        assert("zip"@.len() != "model"@.len());
        assert("zip"@[0] != "igs"@[0]);
        assert("zip"@.len() != "iges"@.len());
        assert("zip"@[0] != "ipt"@[0]);
        assert("zip"@[0] != "iam"@[0]);
        assert("zip"@.len() != "sldprt"@.len());
        assert("zip"@.len() != "sldasm"@.len());
        assert("zip"@[0] != "sat"@[0]);
        assert("zip"@[0] != "stp"@[0]);
        assert("zip"@.len() != "step"@.len());
        assert("zip"@[0] != "p21"@[0]);
        assert("zip"@[0] != "wrl"@[0]);
        assert("zip"@.len() != "jt"@.len());
        assert("zip"@[0] != "dwg"@[0]);
        assert("zip"@[0] != "prt"@[0]);
        assert("zip"@.len() != "jth5"@.len());
        assert("zip"@[0] != "bdf"@[0]);
        assert("zip"@[0] != "dat"@[0]);
        assert("zip"@[0] != "tsg"@[0]);
        assert("zip"@[0] != "op2"@[0]);
        assert("zip"@[0] != "adv"@[0]);
    }
    assert(file_type_of_extension("vtfx"@) == Some(FileType::Vtfx)) by {
        assert("vtfx"@.len() != "x_t"@.len());
        assert("vtfx"@.len() != "x_b"@.len());
        assert("vtfx"@.len() != "catpart"@.len());
        assert("vtfx"@.len() != "catproduct"@.len());
        assert("vtfx"@.len() != "model"@.len());
        assert("vtfx"@.len() != "igs"@.len());
        assert("vtfx"@[0] != "iges"@[0]);
        assert("vtfx"@.len() != "ipt"@.len());
        assert("vtfx"@.len() != "iam"@.len());
        assert("vtfx"@.len() != "sldprt"@.len());
        assert("vtfx"@.len() != "sldasm"@.len());
        assert("vtfx"@.len() != "sat"@.len());
        assert("vtfx"@.len() != "stp"@.len());
        assert("vtfx"@[0] != "step"@[0]);
        assert("vtfx"@.len() != "p21"@.len());
        assert("vtfx"@.len() != "wrl"@.len());
        assert("vtfx"@.len() != "jt"@.len());
        assert("vtfx"@.len() != "dwg"@.len());
        assert("vtfx"@.len() != "prt"@.len());
        assert("vtfx"@[0] != "jth5"@[0]);
        assert("vtfx"@.len() != "bdf"@.len());
        assert("vtfx"@.len() != "dat"@.len());
        assert("vtfx"@.len() != "tsg"@.len());
        assert("vtfx"@.len() != "op2"@.len());
        assert("vtfx"@.len() != "adv"@.len());
        assert("vtfx"@.len() != "zip"@.len());
    }
}

/// Every type the extension table names is one the pipeline handles: a CAD
/// type, a results type, a ZIP archive or a VTFx pass-through.
pub proof fn lemma_extension_types_are_handled(e: Seq<char>)
    ensures
        file_type_of_extension(e) matches Some(t) ==> (is_cad(t) || is_results(t) || t == FileType::Zip
            || t == FileType::Vtfx),
{
}

/// Every CAD or results type, and the archive and pass-through types, can be
/// recognised from a plain extension, except the Pro/ENGINEER assembly
/// (recognised by its compound `.asm.N` name) and the Abaqus results (which
/// have no extension of their own).
pub proof fn lemma_types_have_extensions(t: FileType)
    requires
        is_cad(t) || is_results(t) || t == FileType::Zip || t == FileType::Vtfx,
        t != FileType::ProEngineerAssembly,
        t != FileType::AbaqusOdb,
    ensures
        exists|e: Seq<char>| #[trigger] file_type_of_extension(e) == Some(t),
{
    lemma_extension_table();
    match t {
        FileType::Parasolid => assert(file_type_of_extension("x_t"@) == Some(FileType::Parasolid)),
        FileType::ParasolidBinary => assert(file_type_of_extension("x_b"@) == Some(FileType::ParasolidBinary)),
        FileType::CatiaV5Part => assert(file_type_of_extension("catpart"@) == Some(FileType::CatiaV5Part)),
        FileType::CatiaV5Product => assert(file_type_of_extension("catproduct"@) == Some(FileType::CatiaV5Product)),
        FileType::ProEngineerModel => assert(file_type_of_extension("model"@) == Some(FileType::ProEngineerModel)),
        FileType::Iges => assert(file_type_of_extension("igs"@) == Some(FileType::Iges)),
        FileType::IgesAlt => assert(file_type_of_extension("iges"@) == Some(FileType::IgesAlt)),
        FileType::InventorPart => assert(file_type_of_extension("ipt"@) == Some(FileType::InventorPart)),
        FileType::InventorAssembly => assert(file_type_of_extension("iam"@) == Some(FileType::InventorAssembly)),
        FileType::SolidWorksPart => assert(file_type_of_extension("sldprt"@) == Some(FileType::SolidWorksPart)),
        FileType::SolidWorksAssembly => assert(file_type_of_extension("sldasm"@) == Some(FileType::SolidWorksAssembly)),
        FileType::Acis => assert(file_type_of_extension("sat"@) == Some(FileType::Acis)),
        FileType::Step => assert(file_type_of_extension("stp"@) == Some(FileType::Step)),
        FileType::StepAlt => assert(file_type_of_extension("step"@) == Some(FileType::StepAlt)),
        FileType::StepP21 => assert(file_type_of_extension("p21"@) == Some(FileType::StepP21)),
        FileType::Vrml => assert(file_type_of_extension("wrl"@) == Some(FileType::Vrml)),
        FileType::JupiterTessellation => assert(file_type_of_extension("jt"@) == Some(FileType::JupiterTessellation)),
        FileType::AutoCad => assert(file_type_of_extension("dwg"@) == Some(FileType::AutoCad)),
        FileType::UnigraphicsPart => assert(file_type_of_extension("prt"@) == Some(FileType::UnigraphicsPart)),
        FileType::JupiterHdf5 => assert(file_type_of_extension("jth5"@) == Some(FileType::JupiterHdf5)),
        FileType::NastranBdf => assert(file_type_of_extension("bdf"@) == Some(FileType::NastranBdf)),
        FileType::NastranDat => assert(file_type_of_extension("dat"@) == Some(FileType::NastranDat)),
        FileType::TechnoStarGeometry => assert(file_type_of_extension("tsg"@) == Some(FileType::TechnoStarGeometry)),
        FileType::NastranOp2 => assert(file_type_of_extension("op2"@) == Some(FileType::NastranOp2)),
        FileType::ADVC => assert(file_type_of_extension("adv"@) == Some(FileType::ADVC)),
        FileType::Zip => assert(file_type_of_extension("zip"@) == Some(FileType::Zip)),
        FileType::Vtfx => assert(file_type_of_extension("vtfx"@) == Some(FileType::Vtfx)),
        _ => {},
    }
}

/// Look up a lowercase extension in the table of supported extensions.
pub fn lookup_extension(ext: &[char]) -> (r: Option<FileType>)
    ensures
        r == file_type_of_extension(ext@),
{
    if is_word(ext, "x_t") { Some(FileType::Parasolid) }
    else if is_word(ext, "x_b") { Some(FileType::ParasolidBinary) }
    else if is_word(ext, "catpart") { Some(FileType::CatiaV5Part) }
    else if is_word(ext, "catproduct") { Some(FileType::CatiaV5Product) }
    else if is_word(ext, "model") { Some(FileType::ProEngineerModel) }
    else if is_word(ext, "igs") { Some(FileType::Iges) }
    else if is_word(ext, "iges") { Some(FileType::IgesAlt) }
    else if is_word(ext, "ipt") { Some(FileType::InventorPart) }
    else if is_word(ext, "iam") { Some(FileType::InventorAssembly) }
    else if is_word(ext, "sldprt") { Some(FileType::SolidWorksPart) }
    else if is_word(ext, "sldasm") { Some(FileType::SolidWorksAssembly) }
    else if is_word(ext, "sat") { Some(FileType::Acis) }
    else if is_word(ext, "stp") { Some(FileType::Step) }
    else if is_word(ext, "step") { Some(FileType::StepAlt) }
    else if is_word(ext, "p21") { Some(FileType::StepP21) }
    else if is_word(ext, "wrl") { Some(FileType::Vrml) }
    else if is_word(ext, "jt") { Some(FileType::JupiterTessellation) }
    else if is_word(ext, "dwg") { Some(FileType::AutoCad) }
    else if is_word(ext, "prt") { Some(FileType::UnigraphicsPart) }
    else if is_word(ext, "jth5") { Some(FileType::JupiterHdf5) }
    else if is_word(ext, "bdf") { Some(FileType::NastranBdf) }
    else if is_word(ext, "dat") { Some(FileType::NastranDat) }
    else if is_word(ext, "tsg") { Some(FileType::TechnoStarGeometry) }
    else if is_word(ext, "op2") { Some(FileType::NastranOp2) }
    else if is_word(ext, "adv") { Some(FileType::ADVC) }
    else if is_word(ext, "zip") { Some(FileType::Zip) }
    else if is_word(ext, "vtfx") { Some(FileType::Vtfx) }
    else { None }
}

/// Whether `pat` occurs somewhere in `s`.
pub open spec fn contains_seq(s: Seq<char>, pat: Seq<char>) -> bool {
    exists|i: int| #[trigger] occurs_at(s, pat, i)
}

/// Whether `pat` occurs in `v`.
pub fn find_seq(v: &[char], pat: &[char]) -> (r: bool)
    ensures
        r == contains_seq(v@, pat@),
{
    if pat.len() > v.len() {
        proof {
            assert forall|i: int| !occurs_at(v@, pat@, i) by {}
        }
        return false;
    }
    let last: usize = v.len() - pat.len();
    let mut i: usize = 0;
    while i < last
        invariant
            last + pat@.len() == v@.len(),
            i <= last,
            forall|j: int| 0 <= j < i ==> !occurs_at(v@, pat@, j),
        decreases last - i,
    {
        let pl = pat.len();
        let vl = v.len();
        assert(i + pl <= vl);
        let part = slice_vec(v, i, i + pl);
        if crate::text::chars_eq(part.as_slice(), pat) {
            assert(occurs_at(v@, pat@, i as int));
            return true;
        }
        i = i + 1;
    }
    let part = slice_vec(v, last, v.len());
    if crate::text::chars_eq(part.as_slice(), pat) {
        assert(occurs_at(v@, pat@, last as int));
        return true;
    }
    proof {
        assert forall|j: int| !occurs_at(v@, pat@, j) by {
            if 0 <= j && j + pat@.len() <= v@.len() {
                assert(j <= last);
            }
        }
    }
    false
}

/// The text after the last dot of a lowercase name (meaningful when the name
/// has a dot).
pub open spec fn last_dot_segment(lower: Seq<char>) -> Seq<char> {
    lower.subrange(last_index_of(lower, '.') + 1, lower.len() as int)
}

/// The text between the last two dots of a name.
pub open spec fn second_last_dot_segment(lower: Seq<char>) -> Seq<char> {
    let d1 = last_index_of(lower, '.');
    let head = lower.subrange(0, d1);
    head.subrange(last_index_of(head, '.') + 1, head.len() as int)
}

/// Classification of a lowercase file name: a name without a dot has no
/// extension and so no file type.
pub open spec fn classify_lower_name(lower: Seq<char>) -> Option<FileType> {
    if contains_seq(lower, ".asm."@) && second_last_dot_segment(lower) == "asm"@ {
        Some(FileType::ProEngineerAssembly)
    } else if last_index_of(lower, '.') < 0 || last_dot_segment(lower).len() == 0 {
        None
    } else {
        file_type_of_extension(last_dot_segment(lower))
    }
}

/// Whether a directory listing marks an ADVenture Cluster result directory:
/// an entry named `modeldb`, or one with extension `adv`, in any ASCII case.
pub open spec fn advc_listing(names: Seq<Seq<char>>) -> bool {
    exists|i: int| 0 <= i < names.len() && (
        ascii_lower(names[i]) == "modeldb"@ || match name_extension(names[i]) {
            Some(e) => ascii_lower(e) == "adv"@,
            None => false,
        })
}

/// Classification of a path; `listing` holds the entry names when the path is
/// a directory.
pub open spec fn classify_path(path: Seq<char>, listing: Option<Seq<Seq<char>>>) -> Option<FileType> {
    match listing {
        Some(names) => if advc_listing(names) {
            Some(FileType::ADVC)
        } else {
            Some(FileType::Directory)
        },
        None => match file_name(path) {
            Some(n) => classify_lower_name(ascii_lower(n)),
            None => None,
        },
    }
}

proof fn lemma_last_index_bounds(s: Seq<char>, c: char)
    ensures
        -1 <= last_index_of(s, c) < s.len(),
    decreases s.len(),
{
    if s.len() > 0 && s.last() != c {
        lemma_last_index_bounds(s.drop_last(), c);
    }
}

} // verus!

verus! {

proof fn lemma_last_index_at_least(s: Seq<char>, c: char, j: int)
    requires
        0 <= j < s.len(),
        s[j] == c,
    ensures
        j <= last_index_of(s, c) < s.len(),
        s[last_index_of(s, c)] == c,
    decreases s.len(),
{
    if s.last() != c {
        lemma_last_index_at_least(s.drop_last(), c, j);
    }
}

/// Classify a lowercase file name.
pub fn classify_name(lower: &[char]) -> (r: Option<FileType>)
    ensures
        r == classify_lower_name(lower@),
{
    let pat = chars_of(".asm.");
    proof {
        lemma_last_index_bounds(lower@, '.');
    }
    if find_seq(lower, pat.as_slice()) {
        proof {
            reveal_strlit(".asm.");
            let i = choose|i: int| #[trigger] occurs_at(lower@, ".asm."@, i);
            assert(lower@.subrange(i, i + 5)[4] == '.');
            lemma_last_index_at_least(lower@, '.', i + 4);
        }
        match find_last(lower, '.') {
            Some(d1) => {
                let head = slice_vec(lower, 0, d1);
                proof {
                    lemma_last_index_bounds(head@, '.');
                }
                let start: usize = match find_last(head.as_slice(), '.') {
                    Some(d2) => {
                        let hl = head.len();
                        assert(d2 < hl);
                        d2 + 1
                    },
                    None => 0,
                };
                let seg = slice_vec(head.as_slice(), start, head.len());
                if is_word(seg.as_slice(), "asm") {
                    return Some(FileType::ProEngineerAssembly);
                }
            },
            None => {},
        }
    }
    let start: usize = match find_last(lower, '.') {
        Some(d) => {
            let ll = lower.len();
            assert(d < ll);
            d + 1
        },
        None => {
            return None;
        },
    };
    let seg = slice_vec(lower, start, lower.len());
    if seg.len() == 0 {
        None
    } else {
        lookup_extension(seg.as_slice())
    }
}

/// Whether a directory listing marks an ADVenture Cluster result directory.
pub fn check_advc_directory(names: &Vec<String>) -> (r: bool)
    ensures
        r == advc_listing(names.deep_view()),
{
    let mut i: usize = 0;
    while i < names.len()
        invariant
            i <= names@.len(),
            forall|j: int| 0 <= j < i ==> !(
                ascii_lower(names.deep_view()[j]) == "modeldb"@ || match name_extension(names.deep_view()[j]) {
                    Some(e) => ascii_lower(e) == "adv"@,
                    None => false,
                }),
        decreases names@.len() - i,
    {
        let lower = to_ascii_lowercase(names[i].as_str());
        let lv = chars_of(lower.as_str());
        assert(names.deep_view()[i as int] == names@[i as int]@);
        if is_word(lv.as_slice(), "modeldb") {
            return true;
        }
        let nv = chars_of(names[i].as_str());
        match extension_of_name(nv.as_slice()) {
            Some(e) => {
                let es = string_from_chars(e.as_slice());
                let el = to_ascii_lowercase(es.as_str());
                let elv = chars_of(el.as_str());
                if is_word(elv.as_slice(), "adv") {
                    return true;
                }
            },
            None => {},
        }
        i = i + 1;
    }
    false
}

/// Spec view of an optional directory listing.
pub open spec fn listing_view(listing: Option<&Vec<String>>) -> Option<Seq<Seq<char>>> {
    match listing {
        Some(v) => Some(v.deep_view()),
        None => None,
    }
}

impl FileType {
    /// Determine file type from a path. `listing` carries the names of the
    /// entries when the path is a directory, and is `None` otherwise.
    pub fn from_path_ref(path: &str, listing: Option<&Vec<String>>) -> (r: Option<FileType>)
        ensures
            r == classify_path(path@, listing_view(listing)),
    {
        match listing {
            Some(names) => {
                if check_advc_directory(names) {
                    Some(FileType::ADVC)
                } else {
                    Some(FileType::Directory)
                }
            },
            None => match path_file_name(path) {
                Some(n) => {
                    let lower = to_ascii_lowercase(n.as_str());
                    let lv = chars_of(lower.as_str());
                    classify_name(lv.as_slice())
                },
                None => None,
            },
        }
    }

    /// Returns `true` if this is a VTFx pass-through.
    pub fn is_vtfx_format(&self) -> (r: bool)
        ensures
            r == is_vtfx(*self),
    {
        matches!(self, FileType::Vtfx)
    }

    /// Returns `true` if this is a ZIP archive.
    pub fn is_archive_format(&self) -> (r: bool)
        ensures
            r == (*self == FileType::Zip),
    {
        matches!(self, FileType::Zip)
    }

    /// Returns `true` if this is a CAD/mesh format imported via HOOPS Exchange or natively.
    pub fn is_cad_format(&self) -> (r: bool)
        ensures
            r == is_cad(*self),
    {
        matches!(
            self,
            FileType::Parasolid | FileType::ParasolidBinary | FileType::CatiaV5Part
                | FileType::CatiaV5Product | FileType::ProEngineerModel | FileType::Iges
                | FileType::IgesAlt | FileType::InventorPart | FileType::InventorAssembly
                | FileType::SolidWorksPart | FileType::SolidWorksAssembly | FileType::Acis
                | FileType::Step | FileType::StepAlt | FileType::StepP21 | FileType::Vrml
                | FileType::ProEngineerAssembly | FileType::JupiterTessellation
                | FileType::AutoCad | FileType::UnigraphicsPart | FileType::JupiterHdf5
                | FileType::NastranBdf | FileType::NastranDat | FileType::TechnoStarGeometry
        )
    }

    /// Returns `true` if this is a simulation/results format.
    pub fn is_results_format(&self) -> (r: bool)
        ensures
            r == is_results(*self),
    {
        matches!(self, FileType::NastranOp2 | FileType::AbaqusOdb | FileType::ADVC)
    }

    /// Returns `true` if this file type can be processed by the pipeline.
    pub fn is_processable(&self) -> (r: bool)
        ensures
            r == is_processable_type(*self),
    {
        self.is_cad_format() || self.is_results_format() || self.is_vtfx_format()
    }
}

/// Whether a file type is the VTFx pass-through format.
pub open spec fn is_vtfx(t: FileType) -> bool {
    t == FileType::Vtfx
}

/// CAD/mesh formats, imported through HOOPS Exchange or natively.
pub open spec fn is_cad(t: FileType) -> bool {
    match t {
        FileType::Parasolid | FileType::ParasolidBinary | FileType::CatiaV5Part
        | FileType::CatiaV5Product | FileType::ProEngineerModel | FileType::Iges
        | FileType::IgesAlt | FileType::InventorPart | FileType::InventorAssembly
        | FileType::SolidWorksPart | FileType::SolidWorksAssembly | FileType::Acis
        | FileType::Step | FileType::StepAlt | FileType::StepP21 | FileType::Vrml
        | FileType::ProEngineerAssembly | FileType::JupiterTessellation | FileType::AutoCad
        | FileType::UnigraphicsPart | FileType::JupiterHdf5 | FileType::NastranBdf
        | FileType::NastranDat | FileType::TechnoStarGeometry => true,
        _ => false,
    }
}

/// Simulation/results formats.
pub open spec fn is_results(t: FileType) -> bool {
    t == FileType::NastranOp2 || t == FileType::AbaqusOdb || t == FileType::ADVC
}

/// Types the pipeline can process: CAD, results, and VTFx pass-through.
pub open spec fn is_processable_type(t: FileType) -> bool {
    is_cad(t) || is_results(t) || t == FileType::Vtfx
}

} // verus!

verus! {

/// The name of each file type, as its variant is spelled.
pub open spec fn file_type_label(t: FileType) -> Seq<char> {
    match t {
        FileType::Parasolid => "Parasolid"@,
        FileType::ParasolidBinary => "ParasolidBinary"@,
        FileType::CatiaV5Part => "CatiaV5Part"@,
        FileType::CatiaV5Product => "CatiaV5Product"@,
        FileType::ProEngineerModel => "ProEngineerModel"@,
        FileType::Iges => "Iges"@,
        FileType::IgesAlt => "IgesAlt"@,
        FileType::InventorPart => "InventorPart"@,
        FileType::InventorAssembly => "InventorAssembly"@,
        FileType::SolidWorksPart => "SolidWorksPart"@,
        FileType::SolidWorksAssembly => "SolidWorksAssembly"@,
        FileType::Acis => "Acis"@,
        FileType::Step => "Step"@,
        FileType::StepAlt => "StepAlt"@,
        FileType::StepP21 => "StepP21"@,
        FileType::Vrml => "Vrml"@,
        FileType::ProEngineerAssembly => "ProEngineerAssembly"@,
        FileType::JupiterTessellation => "JupiterTessellation"@,
        FileType::AutoCad => "AutoCad"@,
        FileType::UnigraphicsPart => "UnigraphicsPart"@,
        FileType::JupiterHdf5 => "JupiterHdf5"@,
        FileType::NastranBdf => "NastranBdf"@,
        FileType::NastranDat => "NastranDat"@,
        FileType::TechnoStarGeometry => "TechnoStarGeometry"@,
        FileType::NastranOp2 => "NastranOp2"@,
        FileType::AbaqusOdb => "AbaqusOdb"@,
        FileType::ADVC => "ADVC"@,
        FileType::Zip => "Zip"@,
        FileType::Vtfx => "Vtfx"@,
        FileType::Directory => "Directory"@,
        FileType::Unknown => "Unknown"@,
    }
}

/// The Jupiter Python line that imports a file of type `t` at path `p`
/// (already written with forward slashes), if there is one.
pub open spec fn import_command(t: FileType, p: Seq<char>) -> Option<Seq<char>> {
    match t {
        FileType::JupiterHdf5 => Some("JPT.Exec('LoadJTH5(\""@ + p + "\", 0)')"@),
        FileType::NastranBdf | FileType::NastranDat => Some(
            "JPT.Exec('ImportBdf([\""@ + p + "\"], 2, 1.0472, 1.0472, 0, -1)')"@,
        ),
        FileType::TechnoStarGeometry => Some("JPT.Exec('ImportTSG([\""@ + p + "\"], 1)')"@),
        FileType::NastranOp2 => Some(
            "JPT.Exec('CmdImportTSVOp2Post(\""@ + p + "\", 1, 1.0472, 1.0472, 0, 0, 0)')"@,
        ),
        FileType::AbaqusOdb | FileType::ADVC => Some(
            "JPT.Exec('CmdImportTSVPost(\""@ + p + "\", 8, 1, 1.0472, 1.0472, 0, 0, 0)')"@,
        ),
        _ => if is_cad(t) {
            Some(
                "JPT.Exec('HoopsExchangeImport([\""@ + p
                    + "\"], 1, 3, 30, 5000, 1, 0, 0, 0, 1, 1, 1, 0, 0, 0, 0, 0, 0, 0.01, 0, 0, 0, 0, 0)')"@,
            )
        } else {
            None
        },
    }
}

/// The importer is chosen per file type: native Jupiter files are loaded with
/// `LoadJTH5`, Nastran bulk data (`.bdf` and `.dat`) with `ImportBdf`,
/// TechnoStar geometry with `ImportTSG`, Nastran OP2 results with
/// `CmdImportTSVOp2Post`, Abaqus and ADVenture Cluster results with
/// `CmdImportTSVPost`, every other CAD type with `HoopsExchangeImport`; other
/// types have no import command.
pub proof fn lemma_import_command_per_type(p: Seq<char>)
    ensures
        import_command(FileType::JupiterHdf5, p) == Some("JPT.Exec('LoadJTH5(\""@ + p + "\", 0)')"@),
        import_command(FileType::NastranBdf, p) == Some(
            "JPT.Exec('ImportBdf([\""@ + p + "\"], 2, 1.0472, 1.0472, 0, -1)')"@,
        ),
        import_command(FileType::NastranDat, p) == Some(
            "JPT.Exec('ImportBdf([\""@ + p + "\"], 2, 1.0472, 1.0472, 0, -1)')"@,
        ),
        import_command(FileType::TechnoStarGeometry, p) == Some("JPT.Exec('ImportTSG([\""@ + p + "\"], 1)')"@),
        import_command(FileType::NastranOp2, p) == Some(
            "JPT.Exec('CmdImportTSVOp2Post(\""@ + p + "\", 1, 1.0472, 1.0472, 0, 0, 0)')"@,
        ),
        import_command(FileType::AbaqusOdb, p) == Some(
            "JPT.Exec('CmdImportTSVPost(\""@ + p + "\", 8, 1, 1.0472, 1.0472, 0, 0, 0)')"@,
        ),
        import_command(FileType::ADVC, p) == Some(
            "JPT.Exec('CmdImportTSVPost(\""@ + p + "\", 8, 1, 1.0472, 1.0472, 0, 0, 0)')"@,
        ),
        forall|t: FileType|
            is_cad(t) && t != FileType::JupiterHdf5 && t != FileType::NastranBdf && t != FileType::NastranDat
                && t != FileType::TechnoStarGeometry ==> #[trigger] import_command(t, p) == Some(
                "JPT.Exec('HoopsExchangeImport([\""@ + p
                    + "\"], 1, 3, 30, 5000, 1, 0, 0, 0, 1, 1, 1, 0, 0, 0, 0, 0, 0, 0.01, 0, 0, 0, 0, 0)')"@,
            ),
        forall|t: FileType| !is_cad(t) && !is_results(t) ==> #[trigger] import_command(t, p) is None,
{
}

/// A Jupiter command line `lead + p + tail` starts with `JPT.Exec('` when
/// `lead` does, and holds `p` right after `lead`.
proof fn lemma_command_shape(lead: Seq<char>, p: Seq<char>, tail: Seq<char>)
    requires
        lead.len() >= 10,
        lead.subrange(0, 10) == "JPT.Exec('"@,
    ensures
        (lead + p + tail).subrange(0, 10) == "JPT.Exec('"@,
        (lead + p + tail).subrange(lead.len() as int, (lead.len() + p.len()) as int) == p,
{
    assert((lead + p + tail).subrange(0, 10) =~= lead.subrange(0, 10));
    assert((lead + p + tail).subrange(lead.len() as int, (lead.len() + p.len()) as int) =~= p);
}

/// An import command exists exactly for CAD and results types; each starts
/// with `JPT.Exec('` and holds the path; Nastran `.bdf` and `.dat` files are
/// imported by the same command.
pub proof fn lemma_import_command_shape(t: FileType, p: Seq<char>)
    ensures
        import_command(t, p) is Some <==> (is_cad(t) || is_results(t)),
        import_command(t, p) matches Some(c) ==> (c.len() >= 10 && c.subrange(0, 10) == "JPT.Exec('"@
            && exists|k: int| 0 <= k && k + p.len() <= c.len() && #[trigger] c.subrange(k, k + p.len()) == p),
        import_command(FileType::NastranBdf, p) == import_command(FileType::NastranDat, p),
{
    reveal_strlit("JPT.Exec('");
    reveal_strlit("JPT.Exec('LoadJTH5(\"");
    reveal_strlit("JPT.Exec('ImportBdf([\"");
    reveal_strlit("JPT.Exec('ImportTSG([\"");
    reveal_strlit("JPT.Exec('CmdImportTSVOp2Post(\"");
    reveal_strlit("JPT.Exec('CmdImportTSVPost(\"");
    reveal_strlit("JPT.Exec('HoopsExchangeImport([\"");
    let (lead, tail): (Seq<char>, Seq<char>) = match t {
        FileType::JupiterHdf5 => ("JPT.Exec('LoadJTH5(\""@, "\", 0)')"@),
        FileType::NastranBdf | FileType::NastranDat => (
            "JPT.Exec('ImportBdf([\""@,
            "\"], 2, 1.0472, 1.0472, 0, -1)')"@,
        ),
        FileType::TechnoStarGeometry => ("JPT.Exec('ImportTSG([\""@, "\"], 1)')"@),
        FileType::NastranOp2 => ("JPT.Exec('CmdImportTSVOp2Post(\""@, "\", 1, 1.0472, 1.0472, 0, 0, 0)')"@),
        FileType::AbaqusOdb | FileType::ADVC => (
            "JPT.Exec('CmdImportTSVPost(\""@,
            "\", 8, 1, 1.0472, 1.0472, 0, 0, 0)')"@,
        ),
        _ => (
            "JPT.Exec('HoopsExchangeImport([\""@,
            "\"], 1, 3, 30, 5000, 1, 0, 0, 0, 1, 1, 1, 0, 0, 0, 0, 0, 0, 0.01, 0, 0, 0, 0, 0)')"@,
        ),
    };
    assert(lead.subrange(0, 10) =~= "JPT.Exec('"@);
    lemma_command_shape(lead, p, tail);
    if import_command(t, p) is Some {
        let c = import_command(t, p)->0;
        assert(c == lead + p + tail);
        assert(c.subrange(lead.len() as int, (lead.len() + p.len()) as int) == p);
    }
}

/// The Jupiter Python line that exports the model to a VTFx file at `p`
/// (already written with forward slashes): CAD types export in mode 0, all
/// others in mode 1.
pub open spec fn export_command(t: FileType, p: Seq<char>) -> Seq<char> {
    "JPT.Exec('ExportVTFxFile(\""@ + p + (if is_cad(t) { "\", 0"@ } else { "\", 1"@ })
        + ", 0, 0, 1, [], 1, 0, 0, 0, 0, 1, 1)')"@
}

impl FileType {
    /// The name of this file type.
    pub fn name(&self) -> (r: &'static str)
        ensures
            r@ == file_type_label(*self),
    {
        match self {
            FileType::Parasolid => "Parasolid",
            FileType::ParasolidBinary => "ParasolidBinary",
            FileType::CatiaV5Part => "CatiaV5Part",
            FileType::CatiaV5Product => "CatiaV5Product",
            FileType::ProEngineerModel => "ProEngineerModel",
            FileType::Iges => "Iges",
            FileType::IgesAlt => "IgesAlt",
            FileType::InventorPart => "InventorPart",
            FileType::InventorAssembly => "InventorAssembly",
            FileType::SolidWorksPart => "SolidWorksPart",
            FileType::SolidWorksAssembly => "SolidWorksAssembly",
            FileType::Acis => "Acis",
            FileType::Step => "Step",
            FileType::StepAlt => "StepAlt",
            FileType::StepP21 => "StepP21",
            FileType::Vrml => "Vrml",
            FileType::ProEngineerAssembly => "ProEngineerAssembly",
            FileType::JupiterTessellation => "JupiterTessellation",
            FileType::AutoCad => "AutoCad",
            FileType::UnigraphicsPart => "UnigraphicsPart",
            FileType::JupiterHdf5 => "JupiterHdf5",
            FileType::NastranBdf => "NastranBdf",
            FileType::NastranDat => "NastranDat",
            FileType::TechnoStarGeometry => "TechnoStarGeometry",
            FileType::NastranOp2 => "NastranOp2",
            FileType::AbaqusOdb => "AbaqusOdb",
            FileType::ADVC => "ADVC",
            FileType::Zip => "Zip",
            FileType::Vtfx => "Vtfx",
            FileType::Directory => "Directory",
            FileType::Unknown => "Unknown",
        }
    }

    /// Generate the Jupiter Python import command for this file type.
    pub fn generate_import_command(&self, path: &str) -> (r: Result<String, ConversionError>)
        ensures
            match import_command(*self, forward_slashes(path@)) {
                Some(c) => r matches Ok(s) && s@ == c,
                None => r matches Err(ConversionError::ImportNotSupported { file_type })
                    && file_type@ == file_type_label(*self),
            },
    {
        let p = normalize_path_for_python(path);
        let ps = p.as_str();
        match self {
            FileType::JupiterHdf5 => Ok(concat3("JPT.Exec('LoadJTH5(\"", ps, "\", 0)')")),
            FileType::NastranBdf | FileType::NastranDat => Ok(
                concat3("JPT.Exec('ImportBdf([\"", ps, "\"], 2, 1.0472, 1.0472, 0, -1)')"),
            ),
            FileType::TechnoStarGeometry => Ok(concat3("JPT.Exec('ImportTSG([\"", ps, "\"], 1)')")),
            FileType::NastranOp2 => Ok(
                concat3(
                    "JPT.Exec('CmdImportTSVOp2Post(\"",
                    ps,
                    "\", 1, 1.0472, 1.0472, 0, 0, 0)')",
                ),
            ),
            FileType::AbaqusOdb | FileType::ADVC => Ok(
                concat3(
                    "JPT.Exec('CmdImportTSVPost(\"",
                    ps,
                    "\", 8, 1, 1.0472, 1.0472, 0, 0, 0)')",
                ),
            ),
            _ => {
                if self.is_cad_format() {
                    Ok(
                        concat3(
                            "JPT.Exec('HoopsExchangeImport([\"",
                            ps,
                            "\"], 1, 3, 30, 5000, 1, 0, 0, 0, 1, 1, 1, 0, 0, 0, 0, 0, 0, 0.01, 0, 0, 0, 0, 0)')",
                        ),
                    )
                } else {
                    Err(ConversionError::ImportNotSupported { file_type: self.name().to_owned() })
                }
            },
        }
    }

    /// Generate the Jupiter Python export-to-VTFx command.
    pub fn generate_export_command(&self, output_path: &str) -> (r: String)
        ensures
            r@ == export_command(*self, forward_slashes(output_path@)),
    {
        let p = normalize_path_for_python(output_path);
        let mode = if self.is_cad_format() { "\", 0" } else { "\", 1" };
        let mut r = concat3("JPT.Exec('ExportVTFxFile(\"", p.as_str(), mode);
        r.append(", 0, 0, 1, [], 1, 0, 0, 0, 0, 1, 1)')");
        r
    }
}

} // verus!

verus! {

/// How multiple input files should be handled.
#[derive(Debug, Clone, Copy, PartialEq, Eq, Hash, Structural)]
pub enum ConversionMode {
    /// Each file converted independently.
    Single,
    /// Primary assembly file with referenced parts.
    Assembly,
    /// All inputs combined into one VTFx.
    Combine,
}

impl Default for ConversionMode {
    fn default() -> (r: ConversionMode)
        ensures
            r == ConversionMode::Single,
    {
        ConversionMode::Single
    }
}

/// Result of a successful single-file conversion.
#[derive(Debug)]
pub struct ConversionResult {
    /// Absolute path to the output VTFx file.
    pub path: String,
    /// Output filename.
    pub filename: String,
    /// Directory containing the output.
    pub destination: String,
    /// Original source filename.
    pub original_name: String,
    /// Output file size in bytes.
    pub size: u64,
}

/// A resolved input file ready for the pipeline.
#[derive(Debug)]
pub struct ConversionInput {
    /// Path to the input file on disk.
    pub path: String,
    /// Original file name.
    pub original_name: String,
    /// Detected file type.
    pub file_type: FileType,
}

impl ConversionInput {
    /// An independent copy of this input.
    pub fn duplicate(&self) -> (r: ConversionInput)
        ensures
            r.path@ == self.path@,
            r.original_name@ == self.original_name@,
            r.file_type == self.file_type,
    {
        ConversionInput {
            path: self.path.clone(),
            original_name: self.original_name.clone(),
            file_type: self.file_type,
        }
    }

    /// Generate Jupiter import command for this input.
    pub fn generate_import_command(&self) -> (r: Result<String, ConversionError>)
        ensures
            match import_command(self.file_type, forward_slashes(self.path@)) {
                Some(c) => r matches Ok(s) && s@ == c,
                None => r matches Err(ConversionError::ImportNotSupported { file_type })
                    && file_type@ == file_type_label(self.file_type),
            },
    {
        self.file_type.generate_import_command(self.path.as_str())
    }

    /// Generate Jupiter export command targeting `output_path`.
    pub fn generate_export_command(&self, output_path: &str) -> (r: String)
        ensures
            r@ == export_command(self.file_type, forward_slashes(output_path@)),
    {
        self.file_type.generate_export_command(output_path)
    }
}

/// User-supplied options for a conversion job.
#[derive(Debug)]
pub struct ConversionOptions {
    /// Conversion mode. Defaults to `Single`.
    pub mode: Option<ConversionMode>,
    /// Primary input file name for Assembly/Combine modes.
    pub primary_name: Option<String>,
    /// Whether to delete source files after conversion.
    pub delete_source: Option<bool>,
    /// Per-request concurrency limit (1..=4).
    pub concurrency: Option<u8>,
    /// Whether to scan subdirectories.
    pub scan_deeper: Option<bool>,
}

impl Default for ConversionOptions {
    fn default() -> (r: ConversionOptions)
        ensures
            r.mode == Some(ConversionMode::Single),
            r.primary_name is None,
            r.delete_source == Some(false),
            r.concurrency == Some(1u8),
            r.scan_deeper == Some(false),
    {
        ConversionOptions {
            mode: Some(ConversionMode::Single),
            primary_name: None,
            delete_source: Some(false),
            concurrency: Some(1),
            scan_deeper: Some(false),
        }
    }
}

/// The effective mode of a set of options.
pub open spec fn effective_mode(o: ConversionOptions) -> ConversionMode {
    match o.mode {
        Some(m) => m,
        None => ConversionMode::Single,
    }
}

/// The effective concurrency: the requested value (1 if absent) clamped to 1..=4.
pub open spec fn effective_concurrency(requested: Option<u8>) -> u8 {
    let c: u8 = match requested {
        Some(c) => c,
        None => 1,
    };
    if c < 1 {
        1
    } else if c > 4 {
        4
    } else {
        c
    }
}

/// The primary file name a set of options names, or `None` when Assembly
/// mode lacks one.
pub open spec fn primary_name_spec(o: ConversionOptions) -> Option<Seq<char>> {
    match effective_mode(o) {
        ConversionMode::Combine => Some(match o.primary_name {
            Some(n) => n@,
            None => "combined_files"@,
        }),
        ConversionMode::Assembly => match o.primary_name {
            Some(n) => Some(n@),
            None => None,
        },
        ConversionMode::Single => Some(Seq::empty()),
    }
}

impl ConversionOptions {
    /// Resolve the effective conversion mode.
    pub fn conversion_mode(&self) -> (r: ConversionMode)
        ensures
            r == effective_mode(*self),
    {
        match self.mode {
            Some(m) => m,
            None => ConversionMode::Single,
        }
    }

    /// Whether source files should be deleted.
    pub fn should_delete_source(&self) -> (r: bool)
        ensures
            r == (self.delete_source == Some(true)),
    {
        match self.delete_source {
            Some(b) => b,
            None => false,
        }
    }

    /// Whether to recursively scan subdirectories.
    pub fn should_scan_deeper(&self) -> (r: bool)
        ensures
            r == (self.scan_deeper == Some(true)),
    {
        match self.scan_deeper {
            Some(b) => b,
            None => false,
        }
    }

    /// Effective per-request concurrency.
    pub fn concurrency(&self) -> (r: u8)
        ensures
            r == effective_concurrency(self.concurrency),
            1 <= r <= 4,
    {
        let c: u8 = match self.concurrency {
            Some(c) => c,
            None => 1,
        };
        if c < 1 {
            1
        } else if c > 4 {
            4
        } else {
            c
        }
    }

    /// Resolve the primary file name: the given name, or `combined_files`,
    /// in Combine mode; the given name, which is required, in Assembly mode;
    /// the empty name in Single mode.
    pub fn get_primary_name(&self) -> (r: Result<String, ConversionError>)
        ensures
            match primary_name_spec(*self) {
                Some(n) => r matches Ok(s) && s@ == n,
                None => r matches Err(ConversionError::PrimaryNotSpecified),
            },
            match effective_mode(*self) {
                ConversionMode::Combine => r matches Ok(s) && s@ == match self.primary_name {
                    Some(n) => n@,
                    None => "combined_files"@,
                },
                ConversionMode::Assembly => match self.primary_name {
                    Some(n) => r matches Ok(s) && s@ == n@,
                    None => r matches Err(ConversionError::PrimaryNotSpecified),
                },
                ConversionMode::Single => r matches Ok(s) && s@.len() == 0,
            },
    {
        match self.conversion_mode() {
            ConversionMode::Combine => match &self.primary_name {
                Some(n) => Ok(n.clone()),
                None => Ok("combined_files".to_owned()),
            },
            ConversionMode::Assembly => match &self.primary_name {
                Some(n) => Ok(n.clone()),
                None => Err(ConversionError::PrimaryNotSpecified),
            },
            ConversionMode::Single => Ok(String::new()),
        }
    }
}

} // verus!
