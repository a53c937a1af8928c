//! The protocol client: builds the four POST requests the agent sends to
//! the peripheral-illumination service.
//!
//! Each request is a URL and a JSON body; the body of every payload is
//! specified to the character and the builders are proved against those
//! specifications.  The transport that carries a request over HTTP stands
//! outside the library and receives these values ready-made.

use vstd::prelude::*;
use vstd::string::StringExecFns;
use crate::data_structure::{
    BindEventDefinition, CoreProps, DataField, Event, EventData, Game, GameMetadata,
    ScreenHandler, ScreenHandlerData, ScreenHandlerDataLine,
};
use crate::json::{
    json_array, json_bool, json_i32, json_join, json_string, lemma_json_join_snoc,
    append_json_bool, append_json_i32, append_json_string,
};

verus! {

/// One prepared POST: the full URL and the JSON body to send with it.
pub struct PostRequest {
    pub url: String,
    pub body: String,
}

/// The JSON text of one screen-handler display line.
pub open spec fn json_of_screen_handler_data_line(x: ScreenHandlerDataLine) -> Seq<char> {
    "{\"has-text\":"@ + json_bool(x.has_text) + ",\"context-frame-key\":"@ + json_string(
        x.context_frame_key@,
    ) + ",\"wrap\":"@ + json_i32(x.wrap as int) + "}"@
}

/// The JSON texts of a list of display lines.
pub open spec fn jsons_of_lines(v: Seq<ScreenHandlerDataLine>) -> Seq<Seq<char>> {
    v.map_values(|x: ScreenHandlerDataLine| json_of_screen_handler_data_line(x))
}

/// The JSON text of one screen-handler data block.
pub open spec fn json_of_screen_handler_data(x: ScreenHandlerData) -> Seq<char> {
    "{\"lines\":"@ + json_array(jsons_of_lines(x.lines@)) + ",\"icon-id\":"@ + json_i32(
        x.icon_id as int,
    ) + "}"@
}

/// The JSON texts of a list of data blocks.
pub open spec fn jsons_of_datas(v: Seq<ScreenHandlerData>) -> Seq<Seq<char>> {
    v.map_values(|x: ScreenHandlerData| json_of_screen_handler_data(x))
}

/// The JSON text of one screen handler.
pub open spec fn json_of_screen_handler(x: ScreenHandler) -> Seq<char> {
    "{\"device-type\":"@ + json_string(x.device_type@) + ",\"zone\":"@ + json_string(x.zone@)
        + ",\"mode\":"@ + json_string(x.mode@) + ",\"datas\":"@ + json_array(
        jsons_of_datas(x.datas@),
    ) + "}"@
}

/// The JSON texts of a list of screen handlers.
pub open spec fn jsons_of_handlers(v: Seq<ScreenHandler>) -> Seq<Seq<char>> {
    v.map_values(|x: ScreenHandler| json_of_screen_handler(x))
}

/// The JSON text of one data field.
pub open spec fn json_of_data_field(x: DataField) -> Seq<char> {
    "{\"context-frame-key\":"@ + json_string(x.context_frame_key@) + ",\"label\":"@ + json_string(
        x.label@,
    ) + "}"@
}

/// The JSON texts of a list of data fields.
pub open spec fn jsons_of_data_fields(v: Seq<DataField>) -> Seq<Seq<char>> {
    v.map_values(|x: DataField| json_of_data_field(x))
}

/// The JSON text of the registration payload.
pub open spec fn json_of_game_metadata(m: GameMetadata) -> Seq<char> {
    "{\"game\":"@ + json_string(m.game@) + ",\"game_display_name\":"@ + json_string(
        m.game_display_name@,
    ) + ",\"developer\":"@ + json_string(m.developer@) + ",\"deinitialize_timer_length_ms\":"@
        + json_i32(m.deinitialize_timer_length_ms as int) + "}"@
}

/// The JSON text of the deregistration payload.
pub open spec fn json_of_game(g: Game) -> Seq<char> {
    "{\"game\":"@ + json_string(g.game@) + "}"@
}

/// The JSON text of one `"key":"value"` member of the frame object.
pub open spec fn json_of_frame_pair(p: (String, String)) -> Seq<char> {
    json_string(p.0@) + seq![':'] + json_string(p.1@)
}

/// The JSON texts of the frame's members.
pub open spec fn jsons_of_frame(v: Seq<(String, String)>) -> Seq<Seq<char>> {
    v.map_values(|p: (String, String)| json_of_frame_pair(p))
}

/// The JSON text of the telemetry event's data: the value and the frame
/// object.
pub open spec fn json_of_event_data(d: EventData) -> Seq<char> {
    "{\"value\":"@ + json_i32(d.value as int) + ",\"frame\":{"@ + json_join(
        jsons_of_frame(d.frame@),
    ) + "}}"@
}

/// The JSON text of the telemetry payload.
pub open spec fn json_of_event(e: Event) -> Seq<char> {
    "{\"game\":"@ + json_string(e.game@) + ",\"event\":"@ + json_string(e.event@) + ",\"data\":"@
        + json_of_event_data(e.data) + "}"@
}

/// The JSON text of the event-binding payload.
pub open spec fn json_of_bind_event_definition(b: BindEventDefinition) -> Seq<char> {
    "{\"game\":"@ + json_string(b.game@) + ",\"event\":"@ + json_string(b.event@)
        + ",\"icon_id\":"@ + json_i32(b.icon_id as int) + ",\"value_optional\":"@ + json_bool(
        b.value_optional,
    ) + ",\"handlers\":"@ + json_array(jsons_of_handlers(b.handlers@)) + ",\"data_fields\":"@
        + json_array(jsons_of_data_fields(b.data_fields@)) + "}"@
}

/// Appends the JSON text of one display line.
fn append_line(out: &mut String, x: &ScreenHandlerDataLine)
    ensures
        final(out)@ == old(out)@ + json_of_screen_handler_data_line(*x),
{
    out.append("{\"has-text\":");
    append_json_bool(out, x.has_text);
    out.append(",\"context-frame-key\":");
    append_json_string(out, x.context_frame_key.as_str());
    out.append(",\"wrap\":");
    append_json_i32(out, x.wrap);
    out.append("}");
    assert(out@ =~= old(out)@ + json_of_screen_handler_data_line(*x));
}

/// Appends a JSON array of display lines.
fn append_lines(out: &mut String, v: &Vec<ScreenHandlerDataLine>)
    ensures
        final(out)@ == old(out)@ + json_array(jsons_of_lines(v@)),
{
    proof {
        reveal_strlit("[");
        reveal_strlit("]");
        reveal_strlit(",");
    }
    out.append("[");
    let mut i: usize = 0;
    while i < v.len()
        invariant
            i <= v@.len(),
            out@ == old(out)@ + seq!['['] + json_join(jsons_of_lines(v@.take(i as int))),
        decreases v@.len() - i,
    {
        if i > 0 {
            out.append(",");
        }
        append_line(out, &v[i]);
        proof {
            reveal_strlit("[");
            reveal_strlit(",");
            reveal_strlit(":");
            lemma_json_join_snoc(
                jsons_of_lines(v@.take(i as int)),
                json_of_screen_handler_data_line(v@[i as int]),
            );
            assert(jsons_of_lines(v@.take(i as int + 1)) =~= jsons_of_lines(
                v@.take(i as int),
            ).push(json_of_screen_handler_data_line(v@[i as int])));
            assert(out@ =~= old(out)@ + seq!['['] + json_join(
                jsons_of_lines(v@.take(i as int + 1)),
            ));
        }
        i = i + 1;
    }
    out.append("]");
    proof {
        assert(v@.take(v@.len() as int) =~= v@);
        assert(out@ =~= old(out)@ + json_array(jsons_of_lines(v@)));
    }
}

/// Appends the JSON text of one data block.
fn append_data(out: &mut String, x: &ScreenHandlerData)
    ensures
        final(out)@ == old(out)@ + json_of_screen_handler_data(*x),
{
    out.append("{\"lines\":");
    append_lines(out, &x.lines);
    out.append(",\"icon-id\":");
    append_json_i32(out, x.icon_id);
    out.append("}");
    assert(out@ =~= old(out)@ + json_of_screen_handler_data(*x));
}

/// Appends a JSON array of data blocks.
fn append_datas(out: &mut String, v: &Vec<ScreenHandlerData>)
    ensures
        final(out)@ == old(out)@ + json_array(jsons_of_datas(v@)),
{
    proof {
        reveal_strlit("[");
        reveal_strlit("]");
        reveal_strlit(",");
    }
    out.append("[");
    let mut i: usize = 0;
    while i < v.len()
        invariant
            i <= v@.len(),
            out@ == old(out)@ + seq!['['] + json_join(jsons_of_datas(v@.take(i as int))),
        decreases v@.len() - i,
    {
        if i > 0 {
            out.append(",");
        }
        append_data(out, &v[i]);
        proof {
            reveal_strlit("[");
            reveal_strlit(",");
            reveal_strlit(":");
            lemma_json_join_snoc(
                jsons_of_datas(v@.take(i as int)),
                json_of_screen_handler_data(v@[i as int]),
            );
            assert(jsons_of_datas(v@.take(i as int + 1)) =~= jsons_of_datas(
                v@.take(i as int),
            ).push(json_of_screen_handler_data(v@[i as int])));
            assert(out@ =~= old(out)@ + seq!['['] + json_join(
                jsons_of_datas(v@.take(i as int + 1)),
            ));
        }
        i = i + 1;
    }
    out.append("]");
    proof {
        assert(v@.take(v@.len() as int) =~= v@);
        assert(out@ =~= old(out)@ + json_array(jsons_of_datas(v@)));
    }
}

/// Appends the JSON text of one screen handler.
fn append_handler(out: &mut String, x: &ScreenHandler)
    ensures
        final(out)@ == old(out)@ + json_of_screen_handler(*x),
{
    out.append("{\"device-type\":");
    append_json_string(out, x.device_type.as_str());
    out.append(",\"zone\":");
    append_json_string(out, x.zone.as_str());
    out.append(",\"mode\":");
    append_json_string(out, x.mode.as_str());
    out.append(",\"datas\":");
    append_datas(out, &x.datas);
    out.append("}");
    assert(out@ =~= old(out)@ + json_of_screen_handler(*x));
}

/// Appends a JSON array of screen handlers.
fn append_handlers(out: &mut String, v: &Vec<ScreenHandler>)
    ensures
        final(out)@ == old(out)@ + json_array(jsons_of_handlers(v@)),
{
    proof {
        reveal_strlit("[");
        reveal_strlit("]");
        reveal_strlit(",");
    }
    out.append("[");
    let mut i: usize = 0;
    while i < v.len()
        invariant
            i <= v@.len(),
            out@ == old(out)@ + seq!['['] + json_join(jsons_of_handlers(v@.take(i as int))),
        decreases v@.len() - i,
    {
        if i > 0 {
            out.append(",");
        }
        append_handler(out, &v[i]);
        proof {
            reveal_strlit("[");
            reveal_strlit(",");
            reveal_strlit(":");
            lemma_json_join_snoc(
                jsons_of_handlers(v@.take(i as int)),
                json_of_screen_handler(v@[i as int]),
            );
            assert(jsons_of_handlers(v@.take(i as int + 1)) =~= jsons_of_handlers(
                v@.take(i as int),
            ).push(json_of_screen_handler(v@[i as int])));
            assert(out@ =~= old(out)@ + seq!['['] + json_join(
                jsons_of_handlers(v@.take(i as int + 1)),
            ));
        }
        i = i + 1;
    }
    out.append("]");
    proof {
        assert(v@.take(v@.len() as int) =~= v@);
        assert(out@ =~= old(out)@ + json_array(jsons_of_handlers(v@)));
    }
}

/// Appends the JSON text of one data field.
fn append_data_field(out: &mut String, x: &DataField)
    ensures
        final(out)@ == old(out)@ + json_of_data_field(*x),
{
    out.append("{\"context-frame-key\":");
    append_json_string(out, x.context_frame_key.as_str());
    out.append(",\"label\":");
    append_json_string(out, x.label.as_str());
    out.append("}");
    assert(out@ =~= old(out)@ + json_of_data_field(*x));
}

/// Appends a JSON array of data fields.
fn append_data_fields(out: &mut String, v: &Vec<DataField>)
    ensures
        final(out)@ == old(out)@ + json_array(jsons_of_data_fields(v@)),
{
    proof {
        reveal_strlit("[");
        reveal_strlit("]");
        reveal_strlit(",");
    }
    out.append("[");
    let mut i: usize = 0;
    while i < v.len()
        invariant
            i <= v@.len(),
            out@ == old(out)@ + seq!['['] + json_join(jsons_of_data_fields(v@.take(i as int))),
        decreases v@.len() - i,
    {
        if i > 0 {
            out.append(",");
        }
        append_data_field(out, &v[i]);
        proof {
            reveal_strlit("[");
            reveal_strlit(",");
            reveal_strlit(":");
            lemma_json_join_snoc(
                jsons_of_data_fields(v@.take(i as int)),
                json_of_data_field(v@[i as int]),
            );
            assert(jsons_of_data_fields(v@.take(i as int + 1)) =~= jsons_of_data_fields(
                v@.take(i as int),
            ).push(json_of_data_field(v@[i as int])));
            assert(out@ =~= old(out)@ + seq!['['] + json_join(
                jsons_of_data_fields(v@.take(i as int + 1)),
            ));
        }
        i = i + 1;
    }
    out.append("]");
    proof {
        assert(v@.take(v@.len() as int) =~= v@);
        assert(out@ =~= old(out)@ + json_array(jsons_of_data_fields(v@)));
    }
}

/// Appends the members of the frame object.
fn append_frame(out: &mut String, v: &Vec<(String, String)>)
    ensures
        final(out)@ == old(out)@ + json_join(jsons_of_frame(v@)),
{
    proof {
        reveal_strlit(",");
        reveal_strlit(":");
    }
    let mut i: usize = 0;
    while i < v.len()
        invariant
            i <= v@.len(),
            out@ == old(out)@ + json_join(jsons_of_frame(v@.take(i as int))),
        decreases v@.len() - i,
    {
        if i > 0 {
            out.append(",");
        }
        append_json_string(out, v[i].0.as_str());
        out.append(":");
        append_json_string(out, v[i].1.as_str());
        proof {
            reveal_strlit("[");
            reveal_strlit(",");
            reveal_strlit(":");
            lemma_json_join_snoc(
                jsons_of_frame(v@.take(i as int)),
                json_of_frame_pair(v@[i as int]),
            );
            assert(jsons_of_frame(v@.take(i as int + 1)) =~= jsons_of_frame(
                v@.take(i as int),
            ).push(json_of_frame_pair(v@[i as int])));
            assert(out@ =~= old(out)@ + json_join(jsons_of_frame(v@.take(i as int + 1))));
        }
        i = i + 1;
    }
    proof {
        assert(v@.take(v@.len() as int) =~= v@);
    }
}

/// Builds the registration body.
pub fn game_metadata_body(m: &GameMetadata) -> (r: String)
    ensures
        r@ == json_of_game_metadata(*m),
{
    let mut out = String::new();
    out.append("{\"game\":");
    append_json_string(&mut out, m.game.as_str());
    out.append(",\"game_display_name\":");
    append_json_string(&mut out, m.game_display_name.as_str());
    out.append(",\"developer\":");
    append_json_string(&mut out, m.developer.as_str());
    out.append(",\"deinitialize_timer_length_ms\":");
    append_json_i32(&mut out, m.deinitialize_timer_length_ms);
    out.append("}");
    assert(out@ =~= json_of_game_metadata(*m));
    out
}

/// Builds the deregistration body.
pub fn game_body(g: &Game) -> (r: String)
    ensures
        r@ == json_of_game(*g),
{
    let mut out = String::new();
    out.append("{\"game\":");
    append_json_string(&mut out, g.game.as_str());
    out.append("}");
    assert(out@ =~= json_of_game(*g));
    out
}

/// Builds the telemetry body.
pub fn event_body(e: &Event) -> (r: String)
    ensures
        r@ == json_of_event(*e),
{
    let mut out = String::new();
    out.append("{\"game\":");
    append_json_string(&mut out, e.game.as_str());
    out.append(",\"event\":");
    append_json_string(&mut out, e.event.as_str());
    out.append(",\"data\":");
    out.append("{\"value\":");
    append_json_i32(&mut out, e.data.value);
    out.append(",\"frame\":{");
    append_frame(&mut out, &e.data.frame);
    out.append("}}");
    out.append("}");
    assert(out@ =~= json_of_event(*e));
    out
}

/// Builds the event-binding body.
pub fn bind_event_definition_body(b: &BindEventDefinition) -> (r: String)
    ensures
        r@ == json_of_bind_event_definition(*b),
{
    let mut out = String::new();
    out.append("{\"game\":");
    append_json_string(&mut out, b.game.as_str());
    out.append(",\"event\":");
    append_json_string(&mut out, b.event.as_str());
    out.append(",\"icon_id\":");
    append_json_i32(&mut out, b.icon_id);
    out.append(",\"value_optional\":");
    append_json_bool(&mut out, b.value_optional);
    out.append(",\"handlers\":");
    append_handlers(&mut out, &b.handlers);
    out.append(",\"data_fields\":");
    append_data_fields(&mut out, &b.data_fields);
    out.append("}");
    assert(out@ =~= json_of_bind_event_definition(*b));
    out
}

/// The stateless protocol client: holds the base URL resolved once from the
/// configuration, and prepares one POST per operation.
pub struct GameSenseService {
    pub url: String,
}

impl GameSenseService {
    /// Resolves the base URL from the configured address.
    pub fn new(props: CoreProps) -> (r: Self)
        ensures
            r.url@ == "http://"@ + props.address@,
    {
        let mut url = String::from_str("http://");
        url.append(props.address.as_str());
        GameSenseService { url }
    }

    /// Prepares a POST to one path of the service.
    fn post(&self, path: &str, body: String) -> (r: PostRequest)
        ensures
            r.url@ == self.url@ + "/"@ + path@,
            r.body@ == body@,
    {
        let mut url = self.url.clone();
        url.append("/");
        url.append(path);
        PostRequest { url, body }
    }

    /// The registration request, sent once at startup.
    pub fn register_game(&self, game_metadata: GameMetadata) -> (r: PostRequest)
        ensures
            r.url@ == self.url@ + "/"@ + "game_metadata"@,
            r.body@ == json_of_game_metadata(game_metadata),
    {
        let body = game_metadata_body(&game_metadata);
        self.post("game_metadata", body)
    }

    /// The deregistration request, sent once on teardown.
    pub fn remove_game(&self, game: Game) -> (r: PostRequest)
        ensures
            r.url@ == self.url@ + "/"@ + "remove_game"@,
            r.body@ == json_of_game(game),
    {
        let body = game_body(&game);
        self.post("remove_game", body)
    }

    /// The event-binding request, sent once at startup.
    pub fn bind_game_event(&self, bind_event_definition: BindEventDefinition) -> (r: PostRequest)
        ensures
            r.url@ == self.url@ + "/"@ + "bind_game_event"@,
            r.body@ == json_of_bind_event_definition(bind_event_definition),
    {
        let body = bind_event_definition_body(&bind_event_definition);
        self.post("bind_game_event", body)
    }

    /// The telemetry request, sent on every publish.
    pub fn send_event(&self, event: Event) -> (r: PostRequest)
        ensures
            r.url@ == self.url@ + "/"@ + "game_event"@,
            r.body@ == json_of_event(event),
    {
        let body = event_body(&event);
        self.post("game_event", body)
    }
}

} // verus!
