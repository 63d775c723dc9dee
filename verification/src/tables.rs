//! The curated fingerprint tables behind every heuristic: known AI-tool
//! names, standardized digital-source-type codes, model-name patterns and
//! their display names, tool names looked for in a software tag, and
//! provenance phrases looked for in a user comment.  Matching is
//! case-insensitive and substring-based, and table order is the priority:
//! the first entry that matches wins.

use vstd::prelude::*;

use crate::text::{
    chars_to_vec, first_match_in, first_sub_match, has_sub, lemma_first_sub_match,
    lemma_first_sub_match_at, lower, to_lower_vec,
};

verus! {

/// Known AI generator identifiers, in priority order.
pub open spec fn generator_table() -> Seq<Seq<char>> {
    seq![
        "midjourney"@,
        "dall-e"@,
        "dalle"@,
        "dallÂ·e"@,
        "stable diffusion"@,
        "stability.ai"@,
        "stability ai"@,
        "firefly"@,
        "adobe firefly"@,
        "imagen"@,
        "openai"@,
        "runway"@,
        "runwayml"@,
        "leonardo.ai"@,
        "leonardo ai"@,
        "bing image creator"@,
        "bing image"@,
        "copilot"@,
        "microsoft designer"@,
        "nightcafe"@,
        "artbreeder"@,
        "jasper art"@,
        "dreamstudio"@,
        "craiyon"@,
        "deep dream"@,
        "starryai"@,
        "wombo"@,
        "pixlr"@,
        "canva ai"@,
        "fotor ai"@,
        "ideogram"@,
        "bluewillow"@,
        "playground ai"@,
        "lexica"@,
        "invoke ai"@,
        "automatic1111"@,
        "comfyui"@,
        "fooocus"@,
        "sora"@,
        "pika labs"@,
        "pika"@,
        "gen-2"@,
        "gen-3"@,
        "kaiber"@,
        "synthesia"@,
        "heygen"@,
        "d-id"@,
        "luma ai"@,
        "luma dream machine"@,
        "elevenlabs"@,
        "murf"@,
        "resemble ai"@,
        "descript"@,
        "generative ai"@,
        "ai generated"@,
        "ai-generated"@,
        "machine learning"@,
        "neural network"@,
        "diffusion model"@,
        "text-to-image"@,
        "text to image"@,
        "t2i"@,
        "img2img"@,
        "google ai"@,
        "gemini"@,
        "bard"@,
        "vertex ai"@,
        "synthid"@,
    ]
}

pub fn generator_table_x() -> (t: Vec<&'static str>)
    ensures
        t.deep_view() == generator_table(),
{
    let mut t: Vec<&'static str> = Vec::new();
    t.push("midjourney");
    t.push("dall-e");
    t.push("dalle");
    t.push("dallÂ·e");
    t.push("stable diffusion");
    t.push("stability.ai");
    t.push("stability ai");
    t.push("firefly");
    t.push("adobe firefly");
    t.push("imagen");
    t.push("openai");
    t.push("runway");
    t.push("runwayml");
    t.push("leonardo.ai");
    t.push("leonardo ai");
    t.push("bing image creator");
    t.push("bing image");
    t.push("copilot");
    t.push("microsoft designer");
    t.push("nightcafe");
    t.push("artbreeder");
    t.push("jasper art");
    t.push("dreamstudio");
    t.push("craiyon");
    t.push("deep dream");
    t.push("starryai");
    t.push("wombo");
    t.push("pixlr");
    t.push("canva ai");
    t.push("fotor ai");
    t.push("ideogram");
    t.push("bluewillow");
    t.push("playground ai");
    t.push("lexica");
    t.push("invoke ai");
    t.push("automatic1111");
    t.push("comfyui");
    t.push("fooocus");
    t.push("sora");
    t.push("pika labs");
    t.push("pika");
    t.push("gen-2");
    t.push("gen-3");
    t.push("kaiber");
    t.push("synthesia");
    t.push("heygen");
    t.push("d-id");
    t.push("luma ai");
    t.push("luma dream machine");
    t.push("elevenlabs");
    t.push("murf");
    t.push("resemble ai");
    t.push("descript");
    t.push("generative ai");
    t.push("ai generated");
    t.push("ai-generated");
    t.push("machine learning");
    t.push("neural network");
    t.push("diffusion model");
    t.push("text-to-image");
    t.push("text to image");
    t.push("t2i");
    t.push("img2img");
    t.push("google ai");
    t.push("gemini");
    t.push("bard");
    t.push("vertex ai");
    t.push("synthid");
    proof {
        assert(t.deep_view() =~~= generator_table());
    }
    t
}

/// Standardized digital-source-type codes that denote algorithmic media,
/// each matched case-insensitively in full-URI or short form.
pub open spec fn source_type_table() -> Seq<Seq<char>> {
    seq![
        "http://cv.iptc.org/newscodes/digitalsourcetype/trainedAlgorithmicMedia"@,
        "http://cv.iptc.org/newscodes/digitalsourcetype/algorithmicMedia"@,
        "http://cv.iptc.org/newscodes/digitalsourcetype/compositeWithTrainedAlgorithmicMedia"@,
        "trainedAlgorithmicMedia"@,
        "algorithmicMedia"@,
        "compositeWithTrainedAlgorithmicMedia"@,
        "digitalArt"@,
    ]
}

pub fn source_type_table_x() -> (t: Vec<&'static str>)
    ensures
        t.deep_view() == source_type_table(),
{
    let mut t: Vec<&'static str> = Vec::new();
    t.push("http://cv.iptc.org/newscodes/digitalsourcetype/trainedAlgorithmicMedia");
    t.push("http://cv.iptc.org/newscodes/digitalsourcetype/algorithmicMedia");
    t.push("http://cv.iptc.org/newscodes/digitalsourcetype/compositeWithTrainedAlgorithmicMedia");
    t.push("trainedAlgorithmicMedia");
    t.push("algorithmicMedia");
    t.push("compositeWithTrainedAlgorithmicMedia");
    t.push("digitalArt");
    proof {
        assert(t.deep_view() =~~= source_type_table());
    }
    t
}

/// Literal substrings that identify a specific model or version.
pub open spec fn model_pattern_table() -> Seq<Seq<char>> {
    seq![
        "dall-e-3"@,
        "dall-e-2"@,
        "dall-e 3"@,
        "dall-e 2"@,
        "midjourney v6"@,
        "midjourney v5"@,
        "sd-xl"@,
        "sdxl"@,
        "sd 1.5"@,
        "sd 2.1"@,
        "stable diffusion xl"@,
        "firefly 2"@,
        "firefly 3"@,
        "imagen 2"@,
        "imagen 3"@,
        "gen-3"@,
        "gen-2"@,
        "sora"@,
    ]
}

/// Canonical display name for each model pattern, in the same order.
pub open spec fn model_name_table() -> Seq<Seq<char>> {
    seq![
        "DALL-E 3"@,
        "DALL-E 2"@,
        "DALL-E 3"@,
        "DALL-E 2"@,
        "Midjourney v6"@,
        "Midjourney v5"@,
        "Stable Diffusion XL"@,
        "Stable Diffusion XL"@,
        "Stable Diffusion 1.5"@,
        "Stable Diffusion 2.1"@,
        "Stable Diffusion XL"@,
        "Adobe Firefly 2"@,
        "Adobe Firefly 3"@,
        "Google Imagen 2"@,
        "Google Imagen 3"@,
        "Runway Gen-3"@,
        "Runway Gen-2"@,
        "OpenAI Sora"@,
    ]
}

pub fn model_pattern_table_x() -> (t: Vec<&'static str>)
    ensures
        t.deep_view() == model_pattern_table(),
{
    let mut t: Vec<&'static str> = Vec::new();
    t.push("dall-e-3");
    t.push("dall-e-2");
    t.push("dall-e 3");
    t.push("dall-e 2");
    t.push("midjourney v6");
    t.push("midjourney v5");
    t.push("sd-xl");
    t.push("sdxl");
    t.push("sd 1.5");
    t.push("sd 2.1");
    t.push("stable diffusion xl");
    t.push("firefly 2");
    t.push("firefly 3");
    t.push("imagen 2");
    t.push("imagen 3");
    t.push("gen-3");
    t.push("gen-2");
    t.push("sora");
    proof {
        assert(t.deep_view() =~~= model_pattern_table());
    }
    t
}

pub fn model_name_table_x() -> (t: Vec<&'static str>)
    ensures
        t.deep_view() == model_name_table(),
{
    let mut t: Vec<&'static str> = Vec::new();
    t.push("DALL-E 3");
    t.push("DALL-E 2");
    t.push("DALL-E 3");
    t.push("DALL-E 2");
    t.push("Midjourney v6");
    t.push("Midjourney v5");
    t.push("Stable Diffusion XL");
    t.push("Stable Diffusion XL");
    t.push("Stable Diffusion 1.5");
    t.push("Stable Diffusion 2.1");
    t.push("Stable Diffusion XL");
    t.push("Adobe Firefly 2");
    t.push("Adobe Firefly 3");
    t.push("Google Imagen 2");
    t.push("Google Imagen 3");
    t.push("Runway Gen-3");
    t.push("Runway Gen-2");
    t.push("OpenAI Sora");
    proof {
        assert(t.deep_view() =~~= model_name_table());
    }
    t
}

/// Well-known tool names looked for in the software tag alone.
pub open spec fn software_tool_table() -> Seq<Seq<char>> {
    seq![
        "midjourney"@,
        "dall-e"@,
        "stable diffusion"@,
        "firefly"@,
        "imagen"@,
        "novelai"@,
        "automatic1111"@,
        "comfyui"@,
    ]
}

pub fn software_tool_table_x() -> (t: Vec<&'static str>)
    ensures
        t.deep_view() == software_tool_table(),
{
    let mut t: Vec<&'static str> = Vec::new();
    t.push("midjourney");
    t.push("dall-e");
    t.push("stable diffusion");
    t.push("firefly");
    t.push("imagen");
    t.push("novelai");
    t.push("automatic1111");
    t.push("comfyui");
    proof {
        assert(t.deep_view() =~~= software_tool_table());
    }
    t
}

/// Generation-tool provenance phrases looked for in a user comment.
pub open spec fn comment_phrase_table() -> Seq<Seq<char>> {
    seq![
        "generated by ai"@,
        "ai generated"@,
        "created with ai"@,
        "made with ai"@,
        "prompt:"@,
        "negative prompt:"@,
        "cfg scale"@,
        "sampling steps"@,
        "seed:"@,
    ]
}

pub fn comment_phrase_table_x() -> (t: Vec<&'static str>)
    ensures
        t.deep_view() == comment_phrase_table(),
{
    let mut t: Vec<&'static str> = Vec::new();
    t.push("generated by ai");
    t.push("ai generated");
    t.push("created with ai");
    t.push("made with ai");
    t.push("prompt:");
    t.push("negative prompt:");
    t.push("cfg scale");
    t.push("sampling steps");
    t.push("seed:");
    proof {
        assert(t.deep_view() =~~= comment_phrase_table());
    }
    t
}

/// Action identifiers worth inspecting for AI involvement: standardized
/// creation/placement/drawing/unknown codes plus generic generation markers.
pub open spec fn action_token_table() -> Seq<Seq<char>> {
    seq![
        "c2pa.created"@,
        "c2pa.placed"@,
        "generated"@,
        "ai"@,
        "c2pa.drawing"@,
        "c2pa.unknown"@,
    ]
}

pub fn action_token_table_x() -> (t: Vec<&'static str>)
    ensures
        t.deep_view() == action_token_table(),
{
    let mut t: Vec<&'static str> = Vec::new();
    t.push("c2pa.created");
    t.push("c2pa.placed");
    t.push("generated");
    t.push("ai");
    t.push("c2pa.drawing");
    t.push("c2pa.unknown");
    proof {
        assert(t.deep_view() =~~= action_token_table());
    }
    t
}

/// Tokens in a reader error message that mean "no manifest is embedded".
pub open spec fn no_manifest_token_table() -> Seq<Seq<char>> {
    seq!["not found"@, "jumbfnotfound"@, "no manifest"@, "jumbf"@]
}

pub fn no_manifest_token_table_x() -> (t: Vec<&'static str>)
    ensures
        t.deep_view() == no_manifest_token_table(),
{
    let mut t: Vec<&'static str> = Vec::new();
    t.push("not found");
    t.push("jumbfnotfound");
    t.push("no manifest");
    t.push("jumbf");
    proof {
        assert(t.deep_view() =~~= no_manifest_token_table());
    }
    t
}

/// Tokens in a reader error message that mean the manifest is present but
/// cannot be decoded.
pub open spec fn corrupt_token_table() -> Seq<Seq<char>> {
    seq!["cbor"@, "claim could not be"@, "deserialization"@, "invalid"@]
}

pub fn corrupt_token_table_x() -> (t: Vec<&'static str>)
    ensures
        t.deep_view() == corrupt_token_table(),
{
    let mut t: Vec<&'static str> = Vec::new();
    t.push("cbor");
    t.push("claim could not be");
    t.push("deserialization");
    t.push("invalid");
    proof {
        assert(t.deep_view() =~~= corrupt_token_table());
    }
    t
}

/// The position of the first AI-generator fingerprint in a case-folded text.
pub open spec fn spec_generator_hit(low: Seq<char>) -> Option<int> {
    first_sub_match(low, generator_table())
}

/// The canonical model name recognized in a case-folded text, if any.
pub open spec fn spec_model_name(text: Seq<char>) -> Option<Seq<char>> {
    match first_sub_match(text, model_pattern_table()) {
        Some(i) => Some(model_name_table()[i]),
        None => None,
    }
}

/// Each table entry case-folded, the form in which the source-type codes
/// are compared.
pub open spec fn lowered_table(t: Seq<Seq<char>>) -> Seq<Seq<char>> {
    t.map_values(|e: Seq<char>| lower(e))
}

/// Whether a case-folded text mentions any algorithmic digital-source-type
/// code.
pub open spec fn spec_source_type_hit(low: Seq<char>) -> bool {
    first_sub_match(low, lowered_table(source_type_table())) is Some
}

/// The first AI-generator fingerprint occurring in a case-folded text.
pub fn generator_fingerprint(low: &Vec<char>) -> (r: Option<&'static str>)
    ensures
        match r {
            Some(s) => spec_generator_hit(low@) is Some && s@ == generator_table()[
                spec_generator_hit(low@)->Some_0
            ],
            None => spec_generator_hit(low@) is None,
        },
{
    let table = generator_table_x();
    match first_match_in(low, &table) {
        Some(i) => {
            proof {
                lemma_first_sub_match(low@, generator_table());
            }
            Some(table[i])
        },
        None => None,
    }
}

/// The canonical model name recognized in a case-folded text, if any.
pub fn model_name_lookup(text: &Vec<char>) -> (r: Option<&'static str>)
    ensures
        match r {
            Some(s) => spec_model_name(text@) == Some(s@),
            None => spec_model_name(text@) is None,
        },
{
    let pats = model_pattern_table_x();
    let names = model_name_table_x();
    match first_match_in(text, &pats) {
        Some(i) => {
            proof {
                lemma_first_sub_match(text@, model_pattern_table());
                assert(names@.len() == names.deep_view().len());
                assert(model_name_table().len() == model_pattern_table().len());
                assert(names.deep_view()[i as int] == names@[i as int]@);
            }
            Some(names[i])
        },
        None => None,
    }
}

/// Whether any algorithmic digital-source-type code occurs in a
/// case-folded text.
pub fn source_type_hit(low: &Vec<char>) -> (r: bool)
    ensures
        r == spec_source_type_hit(low@),
{
    let table = source_type_table_x();
    let ghost lowered = lowered_table(source_type_table());
    proof {
        assert(table@.len() == table.deep_view().len());
        assert(lowered.len() == source_type_table().len());
    }
    let mut i: usize = 0;
    while i < table.len()
        invariant
            i <= table.len(),
            table.deep_view() == source_type_table(),
            table@.len() == source_type_table().len(),
            lowered == lowered_table(source_type_table()),
            lowered.len() == table@.len(),
            forall|j: int| 0 <= j < i ==> !has_sub(low@, #[trigger] lowered[j]),
        decreases table.len() - i,
    {
        let raw = chars_to_vec(table[i]);
        let needle = to_lower_vec(&raw);
        proof {
            assert(table.deep_view()[i as int] == table@[i as int]@);
            assert(needle@ == lowered[i as int]);
        }
        if crate::text::contains_chars(low, &needle) {
            proof {
                lemma_first_sub_match_at(low@, lowered, i as int);
            }
            return true;
        }
        i = i + 1;
    }
    proof {
        lemma_first_sub_match(low@, lowered);
    }
    false
}

} // verus!
