# riri-imgui-vulkano

A small Vulkan renderer for imgui (built on vulkano and winit), with a shader compiler front
end and a sample application that draws a spinning cube beneath the imgui interface.

The rules of the renderer are verified with Verus and live in `src/`:

- `flags`: the packed compiler settings (optimisation level, stage, source language, warning
  and debug bits) and their round-trip laws;
- `compiler`: the shader compiler's settings, with the invariant that they always name a
  supported stage and language, and the request handed to shaderc;
- `shader_tool`: the stand-alone compiler's arguments and the `[name].[type].[language]`
  naming convention;
- `shaders`: the shader registry (file names stay unique, a later shader replaces an earlier
  one of the same name), the search for a shader's files, and SPIR-V word decoding;
- `descriptors`: descriptor sets kept by integer key, and the uniforms that replace theirs
  each frame;
- `commands`: the plan of an imgui draw (scissor rectangles, index and vertex offsets);
- `selection`: the choice of physical device, queue family, surface format and image count;
- `logger`, `text`, `fonts`, `geometry`, `vertex`: log formatting, string helpers, font keys,
  buffer concatenation and vertex layouts.

`app/` holds the program itself: the calls into vulkano, winit, imgui, shaderc and the file
system, which hand plain values to the library and act on what it decides.
