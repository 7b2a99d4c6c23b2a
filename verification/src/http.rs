use vstd::prelude::*;

verus! {

/// The front-end server configuration: the path of the script file that is
/// loaded once at startup and then serves every request.
pub struct HttpServer {
    lua_file: String,
}

impl View for HttpServer {
    type V = Seq<char>;

    closed spec fn view(&self) -> Seq<char> {
        self.lua_file@
    }
}

impl HttpServer {
    /// Remember the script path; nothing is read or loaded yet.
    pub fn new(lua_file: String) -> (s: HttpServer)
        ensures
            s@ == lua_file@,
    {
        HttpServer { lua_file }
    }

    /// The script path this server was configured with.
    pub fn lua_file(&self) -> (p: &String)
        ensures
            p@ == self@,
    {
        &self.lua_file
    }
}

} // verus!
