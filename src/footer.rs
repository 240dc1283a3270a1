use vstd::prelude::*;

use crate::text::{decimal, push_decimal};

verus! {

/// The metadata footer of a named texture container, as plain values.
pub struct FooterRecord {
    /// The texture's name, shown in reports and used for wildcard substitution.
    pub name: String,
    pub width: u32,
    pub height: u32,
    pub depth: u32,
    /// The container's own format tag, by its name.
    pub image_format: String,
    pub unk2: u32,
    pub mipmap_count: u32,
    pub unk3: u32,
    pub layer_count: u32,
    /// Length in bytes of the pixel payload.
    pub data_size: u32,
    pub version: (u16, u16),
}

/// `a` and `b` agree on every field but the name.
pub open spec fn same_but_name(a: FooterRecord, b: FooterRecord) -> bool {
    &&& a.width == b.width
    &&& a.height == b.height
    &&& a.depth == b.depth
    &&& a.image_format@ == b.image_format@
    &&& a.unk2 == b.unk2
    &&& a.mipmap_count == b.mipmap_count
    &&& a.unk3 == b.unk3
    &&& a.layer_count == b.layer_count
    &&& a.data_size == b.data_size
    &&& a.version == b.version
}

/// The text of the footer report, given the name of the pixel format that
/// the container's format tag stands for.
pub open spec fn report_text(f: FooterRecord, pixel_format: Seq<char>) -> Seq<char> {
    "\nNutexbFooter Information:\n"@
        + "Name: "@ + f.name@ + "\n"@
        + "Dimensions: "@ + decimal(f.width as nat) + "x"@ + decimal(f.height as nat) + "x"@
        + decimal(f.depth as nat) + "\n"@
        + "NutexbFormat: "@ + f.image_format@ + "\n"@
        + "ImageFormat: "@ + pixel_format + "\n"@
        + "Mipmap Count: "@ + decimal(f.mipmap_count as nat) + "\n"@
        + "Layer Count: "@ + decimal(f.layer_count as nat) + "\n"@
        + "Data Size: "@ + decimal(f.data_size as nat) + " bytes\n"@
        + "Version: ("@ + decimal(f.version.0 as nat) + ", "@ + decimal(f.version.1 as nat) + ")\n"@
}

impl FooterRecord {
    /// The same record under another name; every other field is kept.
    pub fn rewrite_name(&self, name: String) -> (r: FooterRecord)
        ensures
            r.name@ == name@,
            same_but_name(r, *self),
    {
        FooterRecord {
            name,
            width: self.width,
            height: self.height,
            depth: self.depth,
            image_format: self.image_format.clone(),
            unk2: self.unk2,
            mipmap_count: self.mipmap_count,
            unk3: self.unk3,
            layer_count: self.layer_count,
            data_size: self.data_size,
            version: self.version,
        }
    }

    /// The multi-line report of this footer: name, dimensions, format tag,
    /// pixel format, mipmap count, layer count, data size and version.
    pub fn report(&self, pixel_format: &str) -> (r: String)
        ensures
            r@ == report_text(*self, pixel_format@),
    {
        let mut out = String::new();
        out.append("\nNutexbFooter Information:\n");
        out.append("Name: ");
        out.append(self.name.as_str());
        out.append("\n");
        out.append("Dimensions: ");
        push_decimal(&mut out, self.width as u64);
        out.append("x");
        push_decimal(&mut out, self.height as u64);
        out.append("x");
        push_decimal(&mut out, self.depth as u64);
        out.append("\n");
        out.append("NutexbFormat: ");
        out.append(self.image_format.as_str());
        out.append("\n");
        out.append("ImageFormat: ");
        out.append(pixel_format);
        out.append("\n");
        out.append("Mipmap Count: ");
        push_decimal(&mut out, self.mipmap_count as u64);
        out.append("\n");
        out.append("Layer Count: ");
        push_decimal(&mut out, self.layer_count as u64);
        out.append("\n");
        out.append("Data Size: ");
        push_decimal(&mut out, self.data_size as u64);
        out.append(" bytes\n");
        out.append("Version: (");
        push_decimal(&mut out, self.version.0 as u64);
        out.append(", ");
        push_decimal(&mut out, self.version.1 as u64);
        out.append(")\n");
        assert(out@ =~= report_text(*self, pixel_format@));
        out
    }
}

} // verus!
