use vstd::prelude::*;

use crate::builtins::{BuiltinFunction, FunctionEntry};
#[allow(unused_imports)]
use crate::types::{BaseType, Type, TypeModel};

verus! {

/// The entries of this group, as values.
pub open spec fn entries() -> Seq<FunctionEntry> {
    seq![
        FunctionEntry { name: "label.new"@, signature: "label.new(point, text, xloc?, yloc?, color?, style?, size?, text_color?, text_formatting?, text_font_family?, force_overlay?) | label.new(x, y, text, xloc?, yloc?, color?, style?, size?, text_color?, text_formatting?, text_font_family?, force_overlay?)"@, return_type: TypeModel::Unknown },
        FunctionEntry { name: "label.delete"@, signature: "label.delete(id)"@, return_type: TypeModel::Scalar(BaseType::Void) },
        FunctionEntry { name: "line.new"@, signature: "line.new(first_point, second_point, xloc?, extend?, color?, style?, width?, force_overlay?) | line.new(x1, y1, x2, y2, xloc?, extend?, color?, style?, width?, force_overlay?)"@, return_type: TypeModel::Unknown },
        FunctionEntry { name: "box.new"@, signature: "box.new(top_left, bottom_right, border_color?, border_width?, border_style?, extend?, xloc?, bgcolor?, text?, text_size?, text_color?, text_halign?, text_valign?, text_wrap?, text_font_family?, force_overlay?, text_formatting?) | box.new(left, top, right, bottom, border_color?, border_width?, border_style?, extend?, xloc?, bgcolor?, text?, text_size?, text_color?, text_halign?, text_valign?, text_wrap?, text_font_family?, force_overlay?, text_formatting?)"@, return_type: TypeModel::Unknown },
        FunctionEntry { name: "table.new"@, signature: "table.new(position, rows, cols, frame_color?, border_color?, bgcolor?, text_color?, text_size?, force_overlay?)"@, return_type: TypeModel::Unknown },
        FunctionEntry { name: "color.new"@, signature: "color.new(color, transp?)"@, return_type: TypeModel::Scalar(BaseType::Color) },
    ]
}

/// The built-in functions of the `draw / core` group.
pub fn list() -> (r: Vec<BuiltinFunction>)
    ensures
        r@.map_values(|f: BuiltinFunction| f.model()) == entries(),
{
    let r = vec![
        BuiltinFunction { name: "label.new", signature: "label.new(point, text, xloc?, yloc?, color?, style?, size?, text_color?, text_formatting?, text_font_family?, force_overlay?) | label.new(x, y, text, xloc?, yloc?, color?, style?, size?, text_color?, text_formatting?, text_font_family?, force_overlay?)", return_type: Type::unknown() },
        BuiltinFunction { name: "label.delete", signature: "label.delete(id)", return_type: Type::scalar(BaseType::Void) },
        BuiltinFunction { name: "line.new", signature: "line.new(first_point, second_point, xloc?, extend?, color?, style?, width?, force_overlay?) | line.new(x1, y1, x2, y2, xloc?, extend?, color?, style?, width?, force_overlay?)", return_type: Type::unknown() },
        BuiltinFunction { name: "box.new", signature: "box.new(top_left, bottom_right, border_color?, border_width?, border_style?, extend?, xloc?, bgcolor?, text?, text_size?, text_color?, text_halign?, text_valign?, text_wrap?, text_font_family?, force_overlay?, text_formatting?) | box.new(left, top, right, bottom, border_color?, border_width?, border_style?, extend?, xloc?, bgcolor?, text?, text_size?, text_color?, text_halign?, text_valign?, text_wrap?, text_font_family?, force_overlay?, text_formatting?)", return_type: Type::unknown() },
        BuiltinFunction { name: "table.new", signature: "table.new(position, rows, cols, frame_color?, border_color?, bgcolor?, text_color?, text_size?, force_overlay?)", return_type: Type::unknown() },
        BuiltinFunction { name: "color.new", signature: "color.new(color, transp?)", return_type: Type::scalar(BaseType::Color) },
    ];
    assert(r@.map_values(|f: BuiltinFunction| f.model()) =~= entries());
    r
}

} // verus!
